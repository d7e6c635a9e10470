//! Checks on transactions from the wallet daemon, made before they are signed.
//!
//! The daemon holds the wallet keys, so these checks do not defend against a
//! compromised daemon. They catch bugs and misconfiguration: a transaction on
//! another lane, with another payload or of another shape is never signed.

use crate::bytes;
use crate::outside;
use crate::reasons;
use crate::text;
use crate::types::wallet::{
    is_partially_signed, partial_proto_transaction, Transaction, TransactionInput,
    WalletSignableTransaction, SUBNETWORK_ID_SIZE,
};
use vstd::prelude::*;
use vstd::string::*;

verus! {

/// Upper bound on the outputs of a transaction: the recipient and the change.
pub const MAX_OUTPUTS_PER_LANE_TX: usize = 2;

/// The transaction version that the lane requires.
pub const LANE_TX_VERSION: u32 = 1;

/// The name by which messages refer to a transaction: a label and its position.
pub open spec fn tx_name(label: Seq<char>, i: int) -> Seq<char> {
    label + " #"@ + text::decimal_text(i as nat)
}

/// How a message spells a subnetwork id that is not the configured one.
pub open spec fn spelled_subnetwork(id: Seq<u8>) -> Seq<char> {
    if id.len() == 0 {
        "empty subnetwork_id"@
    } else if id.len() != SUBNETWORK_ID_SIZE {
        text::decimal_text(id.len()) + "-byte subnetwork_id 0x"@ + text::hex_text(id)
    } else {
        "0x"@ + text::hex_text(id)
    }
}

/// What is wrong with input `j` of the named transaction: its mass must be a
/// positive compute budget within 16 bits.
pub open spec fn input_flaw(name: Seq<char>, j: int, input: TransactionInput) -> Option<Seq<char>> {
    let head = name + " input #"@ + text::decimal_text(j as nat);
    if input.sig_op_count != 0 {
        Some(
            head + " sig_op_count: expected 0 on v1 tx (use compute_budget mass), got "@
                + text::decimal_text(input.sig_op_count as nat),
        )
    } else if input.compute_budget == 0 {
        Some(
            head
                + " compute_budget: expected > 0 on v1 tx (IGRA lane requires positive per-input mass), got 0"@,
        )
    } else if input.compute_budget > u16::MAX {
        Some(
            head
                + " compute_budget: expected <= 65535 (u16::MAX, kaspa consensus mass type) on v1 tx, got "@
                + text::decimal_text(input.compute_budget as nat),
        )
    } else {
        None
    }
}

/// The flaws of all inputs of the named transaction.
pub open spec fn input_flaws(name: Seq<char>, inputs: Seq<TransactionInput>) -> Seq<
    Option<Seq<char>>,
> {
    Seq::new(inputs.len(), |j: int| input_flaw(name, j, inputs[j]))
}

/// What is wrong with the shape of the named transaction body.
pub open spec fn body_flaw(name: Seq<char>, tx: Transaction, lane_id: Seq<u8>) -> Option<
    Seq<char>,
> {
    if tx.version != LANE_TX_VERSION {
        Some(
            name + " version: expected 1 (Toccata v1), got "@ + text::decimal_text(
                tx.version as nat,
            ),
        )
    } else if tx.subnetwork_id@ != lane_id {
        Some(
            name + " subnetwork_id: expected 0x"@ + text::hex_text(lane_id)
                + " (configured IGRA lane), got "@ + spelled_subnetwork(tx.subnetwork_id@),
        )
    } else if tx.lock_time != 0 {
        Some(
            name + " lock_time: expected 0 on IGRA-lane tx, got "@ + text::decimal_text(
                tx.lock_time as nat,
            ),
        )
    } else if tx.gas != 0 {
        Some(
            name
                + " gas: expected 0 on IGRA-lane tx (gas lives in the L2 payload, not the L1 tx), got "@
                + text::decimal_text(tx.gas as nat),
        )
    } else if tx.outputs@.len() == 0 {
        Some(
            name
                + " outputs: expected at least 1, got 0 (a valid send must produce at least the recipient output)"@,
        )
    } else if tx.outputs@.len() > MAX_OUTPUTS_PER_LANE_TX {
        Some(
            name + " outputs: expected at most 2 (recipient + change), got "@ + text::decimal_text(
                tx.outputs@.len(),
            ),
        )
    } else if tx.inputs@.len() == 0 {
        Some(name + " has no inputs (IGRA-lane tx must consume at least one UTXO)"@)
    } else {
        reasons::first_reason(input_flaws(name, tx.inputs@))
    }
}

/// What is wrong with the shape of the named transaction.
pub open spec fn shape_flaw(
    name: Seq<char>,
    tx: WalletSignableTransaction,
    lane_id: Seq<u8>,
) -> Option<Seq<char>> {
    if !tx.partially_signed() {
        Some(name + " is not Partially signed"@)
    } else {
        match tx.partial_body() {
            None => Some(name + " is missing its proto Transaction body"@),
            Some(body) => body_flaw(name, body, lane_id),
        }
    }
}

/// What is wrong with the payload of the named transaction.
pub open spec fn payload_flaw(name: Seq<char>, payload: Seq<u8>, expected: Seq<u8>) -> Option<
    Seq<char>,
> {
    if payload == expected {
        None
    } else {
        let sizes = name + " payload: expected "@ + text::decimal_text(expected.len())
            + " bytes, got "@ + text::decimal_text(payload.len());
        if payload.len() == expected.len() {
            Some(sizes + " bytes (contents differ)"@)
        } else {
            Some(sizes + " bytes"@)
        }
    }
}

/// The label of transaction `i` out of `n`: the last one carries the payload.
pub open spec fn tx_label(i: int, n: nat) -> Seq<char> {
    if i == n - 1 {
        "payload tx"@
    } else {
        "pre-stage tx"@
    }
}

/// What is wrong with transaction `i` of a batch.
pub open spec fn batch_item_flaw(
    txs: Seq<WalletSignableTransaction>,
    i: int,
    lane_id: Seq<u8>,
    expected_payload: Seq<u8>,
) -> Option<Seq<char>> {
    let name = tx_name(tx_label(i, txs.len()), i);
    match shape_flaw(name, txs[i], lane_id) {
        Some(reason) => Some(reason),
        None => if i == txs.len() - 1 {
            payload_flaw(name, txs[i].partial_body()->0.payload@, expected_payload)
        } else {
            None
        },
    }
}

/// The flaws of all transactions of a batch.
pub open spec fn batch_flaws(
    txs: Seq<WalletSignableTransaction>,
    lane_id: Seq<u8>,
    expected_payload: Seq<u8>,
) -> Seq<Option<Seq<char>>> {
    Seq::new(txs.len(), |i: int| batch_item_flaw(txs, i, lane_id, expected_payload))
}

/// What is wrong with a batch; `None` where it may be signed.
pub open spec fn batch_flaw(
    txs: Seq<WalletSignableTransaction>,
    lane_id: Seq<u8>,
    expected_payload: Seq<u8>,
) -> Option<Seq<char>> {
    if txs.len() == 0 {
        Some("kaswallet returned no unsigned transactions"@)
    } else {
        reasons::first_reason(batch_flaws(txs, lane_id, expected_payload))
    }
}

/// Checks the mass of every input of the named transaction.
fn validate_inputs(name: &str, inputs: &Vec<TransactionInput>) -> (r: Result<(), String>)
    ensures
        match r {
            Ok(_) => reasons::first_reason(input_flaws(name@, inputs@)) is None,
            Err(m) => reasons::first_reason(input_flaws(name@, inputs@)) == Some(m@),
        },
{
    let ghost flaws = input_flaws(name@, inputs@);
    let mut j: usize = 0;
    while j < inputs.len()
        invariant
            j <= inputs@.len(),
            flaws == input_flaws(name@, inputs@),
            forall|k: int| 0 <= k < j ==> #[trigger] flaws[k] is None,
        decreases inputs@.len() - j,
    {
        let input = &inputs[j];
        let head = text::concat3(name, " input #", text::decimal(j as u128).as_str());
        assert(flaws[j as int] == input_flaw(name@, j as int, inputs@[j as int]));
        if input.sig_op_count != 0 {
            proof {
                reasons::first_reason_is_at(flaws, j as int);
            }
            return Err(
                text::concat3(
                    head.as_str(),
                    " sig_op_count: expected 0 on v1 tx (use compute_budget mass), got ",
                    text::decimal(input.sig_op_count as u128).as_str(),
                ),
            );
        }
        if input.compute_budget == 0 {
            proof {
                reasons::first_reason_is_at(flaws, j as int);
            }
            return Err(
                text::concat2(
                    head.as_str(),
                    " compute_budget: expected > 0 on v1 tx (IGRA lane requires positive per-input mass), got 0",
                ),
            );
        }
        if input.compute_budget > u16::MAX as u32 {
            proof {
                reasons::first_reason_is_at(flaws, j as int);
            }
            return Err(
                text::concat3(
                    head.as_str(),
                    " compute_budget: expected <= 65535 (u16::MAX, kaspa consensus mass type) on v1 tx, got ",
                    text::decimal(input.compute_budget as u128).as_str(),
                ),
            );
        }
        j += 1;
    }
    proof {
        reasons::first_reason_is_none(flaws);
    }
    Ok(())
}

/// Spells a subnetwork id that is not the configured one.
fn spell_subnetwork(id: &[u8]) -> (r: String)
    ensures
        r@ == spelled_subnetwork(id@),
{
    if id.len() == 0 {
        String::from_str("empty subnetwork_id")
    } else if id.len() != SUBNETWORK_ID_SIZE {
        text::concat3(
            text::decimal(id.len() as u128).as_str(),
            "-byte subnetwork_id 0x",
            outside::hex_encode(id).as_str(),
        )
    } else {
        text::concat2("0x", outside::hex_encode(id).as_str())
    }
}

/// Checks the shape of the named transaction body.
fn validate_body(name: &str, tx: &Transaction, lane_id: &[u8; SUBNETWORK_ID_SIZE]) -> (r: Result<
    (),
    String,
>)
    ensures
        match r {
            Ok(_) => body_flaw(name@, *tx, lane_id@) is None,
            Err(m) => body_flaw(name@, *tx, lane_id@) == Some(m@),
        },
{
    if tx.version != LANE_TX_VERSION {
        return Err(
            text::concat3(
                name,
                " version: expected 1 (Toccata v1), got ",
                text::decimal(tx.version as u128).as_str(),
            ),
        );
    }
    if !bytes::same_bytes(tx.subnetwork_id.as_slice(), lane_id.as_slice()) {
        return Err(
            text::concat5(
                name,
                " subnetwork_id: expected 0x",
                outside::hex_encode(lane_id.as_slice()).as_str(),
                " (configured IGRA lane), got ",
                spell_subnetwork(tx.subnetwork_id.as_slice()).as_str(),
            ),
        );
    }
    if tx.lock_time != 0 {
        return Err(
            text::concat3(
                name,
                " lock_time: expected 0 on IGRA-lane tx, got ",
                text::decimal(tx.lock_time as u128).as_str(),
            ),
        );
    }
    if tx.gas != 0 {
        return Err(
            text::concat3(
                name,
                " gas: expected 0 on IGRA-lane tx (gas lives in the L2 payload, not the L1 tx), got ",
                text::decimal(tx.gas as u128).as_str(),
            ),
        );
    }
    if tx.outputs.len() == 0 {
        return Err(
            text::concat2(
                name,
                " outputs: expected at least 1, got 0 (a valid send must produce at least the recipient output)",
            ),
        );
    }
    if tx.outputs.len() > MAX_OUTPUTS_PER_LANE_TX {
        return Err(
            text::concat3(
                name,
                " outputs: expected at most 2 (recipient + change), got ",
                text::decimal(tx.outputs.len() as u128).as_str(),
            ),
        );
    }
    if tx.inputs.len() == 0 {
        return Err(
            text::concat2(name, " has no inputs (IGRA-lane tx must consume at least one UTXO)"),
        );
    }
    validate_inputs(name, &tx.inputs)
}

/// Checks the shape of one transaction of a batch.
pub fn validate_single_lane_tx(
    i: usize,
    tx: &WalletSignableTransaction,
    label: &str,
    lane_id: &[u8; SUBNETWORK_ID_SIZE],
) -> (r: Result<(), String>)
    ensures
        match r {
            Ok(_) => shape_flaw(tx_name(label@, i as int), *tx, lane_id@) is None,
            Err(m) => shape_flaw(tx_name(label@, i as int), *tx, lane_id@) == Some(m@),
        },
{
    let name = text::concat3(label, " #", text::decimal(i as u128).as_str());
    if !is_partially_signed(tx) {
        return Err(text::concat2(name.as_str(), " is not Partially signed"));
    }
    match partial_proto_transaction(tx) {
        None => Err(text::concat2(name.as_str(), " is missing its proto Transaction body")),
        Some(body) => validate_body(name.as_str(), body, lane_id),
    }
}

/// Checks the payload of the named transaction.
fn validate_payload(name: &str, payload: &[u8], expected: &[u8]) -> (r: Result<(), String>)
    ensures
        match r {
            Ok(_) => payload_flaw(name@, payload@, expected@) is None,
            Err(m) => payload_flaw(name@, payload@, expected@) == Some(m@),
        },
{
    if bytes::same_bytes(payload, expected) {
        return Ok(());
    }
    let sizes = text::concat5(
        name,
        " payload: expected ",
        text::decimal(expected.len() as u128).as_str(),
        " bytes, got ",
        text::decimal(payload.len() as u128).as_str(),
    );
    if payload.len() == expected.len() {
        Err(text::concat2(sizes.as_str(), " bytes (contents differ)"))
    } else {
        Err(text::concat2(sizes.as_str(), " bytes"))
    }
}

/// Validates every transaction that the wallet daemon returned, before signing.
///
/// Each one must be partially signed, of the lane's version and on the lane,
/// with zero lock time and gas, one or two outputs and at least one input, each
/// input with a positive 16-bit compute budget. The last one must carry the
/// expected payload.
pub fn validate_lane_transaction(
    txs: &[WalletSignableTransaction],
    expected_payload: &[u8],
    lane_id: &[u8; SUBNETWORK_ID_SIZE],
) -> (r: Result<(), String>)
    ensures
        match r {
            Ok(_) => batch_flaw(txs@, lane_id@, expected_payload@) is None,
            Err(m) => batch_flaw(txs@, lane_id@, expected_payload@) == Some(m@),
        },
{
    if txs.len() == 0 {
        return Err(String::from_str("kaswallet returned no unsigned transactions"));
    }
    let ghost flaws = batch_flaws(txs@, lane_id@, expected_payload@);
    let last_index: usize = txs.len() - 1;
    let mut i: usize = 0;
    while i < txs.len()
        invariant
            i <= txs@.len(),
            last_index == txs@.len() - 1,
            flaws == batch_flaws(txs@, lane_id@, expected_payload@),
            forall|k: int| 0 <= k < i ==> #[trigger] flaws[k] is None,
        decreases txs@.len() - i,
    {
        let tx = &txs[i];
        assert(flaws[i as int] == batch_item_flaw(
            txs@,
            i as int,
            lane_id@,
            expected_payload@,
        ));
        let label = if i == last_index {
            "payload tx"
        } else {
            "pre-stage tx"
        };
        match validate_single_lane_tx(i, tx, label, lane_id) {
            Ok(_) => {},
            Err(m) => {
                proof {
                    reasons::first_reason_is_at(flaws, i as int);
                }
                return Err(m);
            },
        }
        if i == last_index {
            let name = text::concat3(label, " #", text::decimal(i as u128).as_str());
            match partial_proto_transaction(tx) {
                Some(body) => match validate_payload(
                    name.as_str(),
                    body.payload.as_slice(),
                    expected_payload,
                ) {
                    Ok(_) => {},
                    Err(m) => {
                        proof {
                            reasons::first_reason_is_at(flaws, i as int);
                        }
                        return Err(m);
                    },
                },
                None => {},
            }
        }
        i += 1;
    }
    proof {
        reasons::first_reason_is_none(flaws);
    }
    Ok(())
}

/// Whether a transaction may be signed on the given lane, whatever its payload.
pub open spec fn fits_lane(tx: WalletSignableTransaction, lane_id: Seq<u8>) -> bool {
    &&& tx.partially_signed()
    &&& tx.partial_body() matches Some(body)
    &&& body.version == LANE_TX_VERSION
    &&& body.subnetwork_id@ == lane_id
    &&& body.lock_time == 0
    &&& body.gas == 0
    &&& 1 <= body.outputs@.len() <= MAX_OUTPUTS_PER_LANE_TX
    &&& body.inputs@.len() > 0
    &&& forall|j: int|
        0 <= j < body.inputs@.len() ==> has_lane_mass(#[trigger] body.inputs@[j])
}

/// Whether an input declares its mass as the lane requires.
pub open spec fn has_lane_mass(input: TransactionInput) -> bool {
    input.sig_op_count == 0 && 0 < input.compute_budget <= u16::MAX
}

/// The shape check finds no flaw exactly in the transactions that fit the lane,
/// by whatever name they go.
pub proof fn shape_check_is_exact(name: Seq<char>, tx: WalletSignableTransaction, lane_id: Seq<u8>)
    ensures
        shape_flaw(name, tx, lane_id) is None <==> fits_lane(tx, lane_id),
{
    if tx.partially_signed() && tx.partial_body() is Some {
        let inputs = tx.partial_body()->0.inputs@;
        let flaws = input_flaws(name, inputs);
        reasons::first_reason_is_none(flaws);
        assert forall|j: int| 0 <= j < inputs.len() implies (#[trigger] flaws[j] is None
            <==> has_lane_mass(inputs[j])) by {}
        if fits_lane(tx, lane_id) {
            assert forall|j: int| 0 <= j < flaws.len() implies #[trigger] flaws[j] is None by {
                assert(has_lane_mass(inputs[j]));
            }
        }
        if shape_flaw(name, tx, lane_id) is None {
            assert forall|j: int| 0 <= j < inputs.len() implies has_lane_mass(
                #[trigger] inputs[j],
            ) by {
                assert(flaws[j] is None);
            }
        }
    }
}

/// A batch is accepted exactly where it is not empty, every transaction of it
/// fits the lane and the last one carries the expected payload.
pub proof fn lane_validation_is_exact(
    txs: Seq<WalletSignableTransaction>,
    lane_id: Seq<u8>,
    expected_payload: Seq<u8>,
)
    ensures
        batch_flaw(txs, lane_id, expected_payload) is None <==> {
            &&& txs.len() > 0
            &&& forall|i: int| 0 <= i < txs.len() ==> fits_lane(#[trigger] txs[i], lane_id)
            &&& txs.last().partial_body()->0.payload@ == expected_payload
        },
{
    if txs.len() > 0 {
        let flaws = batch_flaws(txs, lane_id, expected_payload);
        reasons::first_reason_is_none(flaws);
        assert forall|i: int| 0 <= i < txs.len() implies (#[trigger] flaws[i] is None <==> {
            &&& fits_lane(txs[i], lane_id)
            &&& i == txs.len() - 1 ==> txs[i].partial_body()->0.payload@ == expected_payload
        }) by {
            shape_check_is_exact(tx_name(tx_label(i, txs.len()), i), txs[i], lane_id);
        }
        if batch_flaw(txs, lane_id, expected_payload) is None {
            assert forall|i: int| 0 <= i < txs.len() implies fits_lane(
                #[trigger] txs[i],
                lane_id,
            ) by {
                assert(flaws[i] is None);
            }
            assert(flaws[txs.len() - 1] is None);
        }
    }
}

/// A batch that is accepted on one lane is refused on every other.
pub proof fn lanes_exclude_each_other(
    txs: Seq<WalletSignableTransaction>,
    lane: Seq<u8>,
    other: Seq<u8>,
    payload: Seq<u8>,
    other_payload: Seq<u8>,
)
    requires
        lane != other,
        batch_flaw(txs, lane, payload) is None,
    ensures
        batch_flaw(txs, other, other_payload) is Some,
{
    lane_validation_is_exact(txs, lane, payload);
    lane_validation_is_exact(txs, other, other_payload);
    assert(fits_lane(txs[0], lane));
    assert(!fits_lane(txs[0], other));
}

/// What may be signed is fixed by the fields of the transactions themselves: each
/// is partially signed and has a body of version 1 on the lane, with zero lock
/// time and gas, one or two outputs and at least one input, each input with no
/// signature operations and a compute budget from 1 to 65535; and the body of the
/// last one carries the payload.
pub proof fn fields_decide_what_may_be_signed(
    txs: Seq<WalletSignableTransaction>,
    lane_id: Seq<u8>,
    payload: Seq<u8>,
)
    ensures
        batch_flaw(txs, lane_id, payload) is None <==> {
            &&& txs.len() > 0
            &&& forall|i: int|
                0 <= i < txs.len() ==> {
                    &&& (#[trigger] txs[i]).transaction matches Some(signing)
                    &&& signing.signed matches Some(crate::types::wallet::Signed::Partially(part))
                    &&& part.tx matches Some(body)
                    &&& body.version == 1
                    &&& body.subnetwork_id@ == lane_id
                    &&& body.lock_time == 0
                    &&& body.gas == 0
                    &&& body.outputs@.len() == 1 || body.outputs@.len() == 2
                    &&& body.inputs@.len() >= 1
                    &&& forall|j: int|
                        0 <= j < body.inputs@.len() ==> (#[trigger] body.inputs@[j]).sig_op_count
                            == 0 && 1 <= body.inputs@[j].compute_budget <= 65535
                    &&& i == txs.len() - 1 ==> body.payload@ == payload
                }
        },
{
    lane_validation_is_exact(txs, lane_id, payload);
    if batch_flaw(txs, lane_id, payload) is None {
        assert forall|i: int| 0 <= i < txs.len() implies {
            &&& (#[trigger] txs[i]).transaction matches Some(signing)
            &&& signing.signed matches Some(crate::types::wallet::Signed::Partially(part))
            &&& part.tx matches Some(body)
            &&& body.version == 1
            &&& body.subnetwork_id@ == lane_id
            &&& body.lock_time == 0
            &&& body.gas == 0
            &&& body.outputs@.len() == 1 || body.outputs@.len() == 2
            &&& body.inputs@.len() >= 1
            &&& forall|j: int|
                0 <= j < body.inputs@.len() ==> (#[trigger] body.inputs@[j]).sig_op_count == 0 && 1
                    <= body.inputs@[j].compute_budget <= 65535
            &&& i == txs.len() - 1 ==> body.payload@ == payload
        } by {
            assert(fits_lane(txs[i], lane_id));
            let body = txs[i].partial_body()->0;
            assert forall|j: int| 0 <= j < body.inputs@.len() implies (
            #[trigger] body.inputs@[j]).sig_op_count == 0 && 1 <= body.inputs@[j].compute_budget
                <= 65535 by {
                assert(has_lane_mass(body.inputs@[j]));
            }
        }
    } else if txs.len() > 0 {
        if forall|i: int|
            0 <= i < txs.len() ==> {
                &&& (#[trigger] txs[i]).transaction matches Some(signing)
                &&& signing.signed matches Some(crate::types::wallet::Signed::Partially(part))
                &&& part.tx matches Some(body)
                &&& body.version == 1
                &&& body.subnetwork_id@ == lane_id
                &&& body.lock_time == 0
                &&& body.gas == 0
                &&& body.outputs@.len() == 1 || body.outputs@.len() == 2
                &&& body.inputs@.len() >= 1
                &&& forall|j: int|
                    0 <= j < body.inputs@.len() ==> (#[trigger] body.inputs@[j]).sig_op_count == 0
                        && 1 <= body.inputs@[j].compute_budget <= 65535
                &&& i == txs.len() - 1 ==> body.payload@ == payload
            } {
            assert forall|i: int| 0 <= i < txs.len() implies fits_lane(
                #[trigger] txs[i],
                lane_id,
            ) by {
                assert(txs[i].transaction is Some);
            }
            assert(txs[txs.len() - 1].transaction is Some);
        }
    }
}

/// The first transaction with a flaw gives the reason for refusing a batch, and
/// later ones do not matter.
pub proof fn the_first_flawed_transaction_gives_the_reason(
    txs: Seq<WalletSignableTransaction>,
    at: int,
    lane_id: Seq<u8>,
    payload: Seq<u8>,
)
    requires
        0 <= at < txs.len() - 1,
        forall|i: int| 0 <= i < at ==> fits_lane(#[trigger] txs[i], lane_id),
        !fits_lane(txs[at], lane_id),
    ensures
        batch_flaw(txs, lane_id, payload) == shape_flaw(
            "pre-stage tx #"@ + text::decimal_text(at as nat),
            txs[at],
            lane_id,
        ),
        batch_flaw(txs, lane_id, payload) is Some,
{
    let flaws = batch_flaws(txs, lane_id, payload);
    reveal_strlit("pre-stage tx");
    reveal_strlit(" #");
    reveal_strlit("pre-stage tx #");
    assert("pre-stage tx"@ + " #"@ =~= "pre-stage tx #"@);
    assert forall|i: int| 0 <= i < at implies #[trigger] flaws[i] is None by {
        shape_check_is_exact(tx_name(tx_label(i, txs.len()), i), txs[i], lane_id);
        assert(fits_lane(txs[i], lane_id));
    }
    shape_check_is_exact(tx_name(tx_label(at, txs.len()), at), txs[at], lane_id);
    assert(flaws[at] is Some);
    reasons::first_reason_is_at(flaws, at);
}

/// The last transaction of a batch is the one that must carry the payload: where
/// all transactions fit the lane, the batch is refused exactly where that one
/// carries other bytes, and the reason names both lengths.
pub proof fn only_the_last_payload_counts(
    txs: Seq<WalletSignableTransaction>,
    lane_id: Seq<u8>,
    payload: Seq<u8>,
)
    requires
        txs.len() > 0,
        forall|i: int| 0 <= i < txs.len() ==> fits_lane(#[trigger] txs[i], lane_id),
    ensures
        ({
            let carried = txs.last().partial_body()->0.payload@;
            let head = "payload tx #"@ + text::decimal_text((txs.len() - 1) as nat)
                + " payload: expected "@ + text::decimal_text(payload.len()) + " bytes, got "@
                + text::decimal_text(carried.len());
            &&& batch_flaw(txs, lane_id, payload) is None <==> carried == payload
            &&& carried.len() != payload.len() ==> batch_flaw(txs, lane_id, payload) == Some(
                head + " bytes"@,
            )
            &&& carried.len() == payload.len() && carried != payload ==> batch_flaw(
                txs,
                lane_id,
                payload,
            ) == Some(head + " bytes (contents differ)"@)
        }),
{
    let at = txs.len() - 1;
    let flaws = batch_flaws(txs, lane_id, payload);
    lane_validation_is_exact(txs, lane_id, payload);
    reveal_strlit("payload tx");
    reveal_strlit(" #");
    reveal_strlit("payload tx #");
    assert("payload tx"@ + " #"@ =~= "payload tx #"@);
    assert forall|i: int| 0 <= i < at implies #[trigger] flaws[i] is None by {
        shape_check_is_exact(tx_name(tx_label(i, txs.len()), i), txs[i], lane_id);
        assert(fits_lane(txs[i], lane_id));
    }
    shape_check_is_exact(tx_name(tx_label(at, txs.len()), at), txs[at], lane_id);
    assert(fits_lane(txs[at], lane_id));
    if txs.last().partial_body()->0.payload@ != payload {
        assert(flaws[at] is Some);
        reasons::first_reason_is_at(flaws, at);
    }
}

} // verus!
