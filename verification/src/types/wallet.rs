//! Transactions as the wallet daemon sends them, and their consensus form.

use crate::bytes;
use crate::outside;
use crate::reasons;
use crate::text;
use vstd::prelude::*;
use vstd::string::*;
#[allow(unused_imports)]
use vstd::utf8::*;

verus! {

/// Number of bytes of a transaction id.
pub const TRANSACTION_ID_SIZE: usize = 32;

/// Number of bytes of a subnetwork id.
pub const SUBNETWORK_ID_SIZE: usize = 20;

/// The first transaction version whose inputs declare a compute budget.
pub const FIRST_COMPUTE_BUDGET_VERSION: u16 = 1;

/// A reference to an output of an earlier transaction.
#[derive(Debug, Clone, PartialEq, Eq)]
pub struct TransactionOutpoint {
    pub transaction_id: Vec<u8>,
    pub index: u32,
}

/// An input on the wire. Both mass fields are always present; the version of
/// the transaction tells which one counts.
#[derive(Debug, Clone, PartialEq, Eq)]
pub struct TransactionInput {
    pub previous_outpoint: Option<TransactionOutpoint>,
    pub signature_script: Vec<u8>,
    pub sequence: u64,
    pub sig_op_count: u32,
    pub compute_budget: u32,
}

/// A script on the wire, as hexadecimal text.
#[derive(Debug, Clone, PartialEq, Eq)]
pub struct ScriptPublicKey {
    pub version: u32,
    pub script_public_key: String,
}

/// An output on the wire.
#[derive(Debug, Clone, PartialEq, Eq)]
pub struct TransactionOutput {
    pub value: u64,
    pub script_public_key: Option<ScriptPublicKey>,
}

/// A transaction on the wire.
#[derive(Debug, Clone, PartialEq, Eq)]
pub struct Transaction {
    pub version: u32,
    pub inputs: Vec<TransactionInput>,
    pub outputs: Vec<TransactionOutput>,
    pub lock_time: u64,
    pub subnetwork_id: Vec<u8>,
    pub gas: u64,
    pub payload: Vec<u8>,
    pub mass: u64,
    pub id: Vec<u8>,
}

/// A transaction that can be signed.
#[derive(Debug, Clone, PartialEq, Eq)]
pub struct SignableTransaction {
    pub tx: Option<Transaction>,
}

/// How far a transaction has been signed.
#[derive(Debug, Clone, PartialEq, Eq)]
pub enum Signed {
    Partially(SignableTransaction),
    Fully(SignableTransaction),
}

/// The signing state of a transaction.
#[derive(Debug, Clone, PartialEq, Eq)]
pub struct SignedTransaction {
    pub signed: Option<Signed>,
}

/// A transaction as the wallet daemon exchanges it.
#[derive(Debug, Clone, PartialEq, Eq)]
pub struct WalletSignableTransaction {
    pub transaction: Option<SignedTransaction>,
}

impl WalletSignableTransaction {
    /// Whether the transaction is marked as partially signed.
    pub open spec fn partially_signed(self) -> bool {
        &&& self.transaction matches Some(st)
        &&& st.signed matches Some(Signed::Partially(_))
    }

    /// The body of a partially signed transaction, where it has one.
    pub open spec fn partial_body(self) -> Option<Transaction> {
        match self.transaction {
            Some(st) => match st.signed {
                Some(Signed::Partially(signable)) => signable.tx,
                _ => None,
            },
            None => None,
        }
    }
}

/// Checks whether a wallet transaction is partially signed.
pub fn is_partially_signed(wst: &WalletSignableTransaction) -> (r: bool)
    ensures
        r == wst.partially_signed(),
{
    match &wst.transaction {
        Some(st) => match &st.signed {
            Some(Signed::Partially(_)) => true,
            _ => false,
        },
        None => false,
    }
}

/// The underlying transaction of a partially signed wallet transaction.
///
/// `None` if the wrapper or the signed variant is missing or the transaction is
/// fully signed.
pub fn partial_proto_transaction(wst: &WalletSignableTransaction) -> (r: Option<&Transaction>)
    ensures
        match r {
            Some(tx) => wst.partial_body() == Some(*tx),
            None => wst.partial_body() is None,
        },
{
    match &wst.transaction {
        Some(st) => match &st.signed {
            Some(Signed::Partially(signable)) => match &signable.tx {
                Some(tx) => Some(tx),
                None => None,
            },
            _ => None,
        },
        None => None,
    }
}

/// Why a transaction could not be converted.
#[derive(Debug, Clone, PartialEq, Eq)]
pub enum KaspaWalletError {
    UserInputError(String),
    InternalServerError(String),
}

impl KaspaWalletError {
    /// The message of the error.
    pub open spec fn message(self) -> Seq<char> {
        match self {
            KaspaWalletError::UserInputError(m) => m@,
            KaspaWalletError::InternalServerError(m) => m@,
        }
    }

    /// Writes the message of the error.
    pub fn to_string(&self) -> (r: String)
        ensures
            r@ == self.message(),
    {
        match self {
            KaspaWalletError::UserInputError(m) => m.clone(),
            KaspaWalletError::InternalServerError(m) => m.clone(),
        }
    }
}

/// What an input is charged for, by the version of its transaction.
#[derive(Debug, Clone, Copy, PartialEq, Eq, Structural)]
pub enum TxInputMass {
    /// The number of signature operations.
    SigopCount(u8),
    /// The declared compute budget.
    ComputeBudget(u16),
}

impl TxInputMass {
    /// The number of signature operations, where that is what counts.
    pub fn sig_op_count(&self) -> (r: Option<u8>)
        ensures
            r == match *self {
                TxInputMass::SigopCount(n) => Some(n),
                TxInputMass::ComputeBudget(_) => None,
            },
    {
        match self {
            TxInputMass::SigopCount(n) => Some(*n),
            TxInputMass::ComputeBudget(_) => None,
        }
    }

    /// The compute budget, where that is what counts.
    pub fn compute_budget(&self) -> (r: Option<u16>)
        ensures
            r == match *self {
                TxInputMass::SigopCount(_) => None,
                TxInputMass::ComputeBudget(n) => Some(n),
            },
    {
        match self {
            TxInputMass::SigopCount(_) => None,
            TxInputMass::ComputeBudget(n) => Some(*n),
        }
    }
}

/// An input in consensus form.
#[derive(Debug, Clone, PartialEq, Eq)]
pub struct KaspaInput {
    pub transaction_id: [u8; TRANSACTION_ID_SIZE],
    pub index: u32,
    pub signature_script: Vec<u8>,
    pub sequence: u64,
    pub mass: TxInputMass,
}

/// An output in consensus form.
#[derive(Debug, Clone, PartialEq, Eq)]
pub struct KaspaOutput {
    pub value: u64,
    pub script_version: u16,
    pub script: Vec<u8>,
}

/// A transaction in consensus form, without what consensus derives from it.
#[derive(Debug, Clone, PartialEq, Eq)]
pub struct KaspaTransaction {
    pub version: u16,
    pub inputs: Vec<KaspaInput>,
    pub outputs: Vec<KaspaOutput>,
    pub lock_time: u64,
    pub subnetwork_id: [u8; SUBNETWORK_ID_SIZE],
    pub gas: u64,
    pub payload: Vec<u8>,
}

/// Whether every outpoint of a transaction has an id of the right size.
pub open spec fn outpoints_sized(tx: Transaction) -> bool {
    forall|i: int|
        0 <= i < tx.inputs@.len() ==> outpoint_sized(#[trigger] tx.inputs@[i])
}

/// Whether the outpoint of an input, if any, has an id of the right size.
pub open spec fn outpoint_sized(input: TransactionInput) -> bool {
    input.previous_outpoint matches Some(op) ==> op.transaction_id@.len() == TRANSACTION_ID_SIZE
}

/// Why an input cannot be converted in a transaction of the given version.
pub open spec fn input_flaw(input: TransactionInput, version: u16) -> Option<Seq<char>> {
    if version >= FIRST_COMPUTE_BUDGET_VERSION {
        if input.compute_budget > u16::MAX {
            Some(
                "compute_budget "@ + text::decimal_text(input.compute_budget as nat)
                    + " exceeds u16::MAX"@,
            )
        } else {
            None
        }
    } else if input.sig_op_count > u8::MAX {
        Some("sig_op_count "@ + text::decimal_text(input.sig_op_count as nat) + " exceeds u8::MAX"@)
    } else {
        None
    }
}

/// Whether `k` is the consensus form of `input` under a transaction version.
pub open spec fn input_converts(input: TransactionInput, version: u16, k: KaspaInput) -> bool {
    &&& match input.previous_outpoint {
        Some(op) => k.transaction_id@ == op.transaction_id@ && k.index == op.index,
        None => k.transaction_id@ == Seq::new(TRANSACTION_ID_SIZE as nat, |i: int| 0u8)
            && k.index == 0,
    }
    &&& k.signature_script@ == input.signature_script@
    &&& k.sequence == input.sequence
    &&& k.mass == if version >= FIRST_COMPUTE_BUDGET_VERSION {
        TxInputMass::ComputeBudget(input.compute_budget as u16)
    } else {
        TxInputMass::SigopCount(input.sig_op_count as u8)
    }
}

/// Why an output cannot be converted.
pub open spec fn output_flaw(output: TransactionOutput) -> Option<Seq<char>> {
    match output.script_public_key {
        Some(spk) => {
            let digits = encode_utf8(spk.script_public_key@);
            if spk.version > u16::MAX {
                Some("Invalid script version"@)
            } else if !(digits.len() % 2 == 0 && text::all_hex_digits(digits)) {
                Some("Invalid script hex: "@ + outside::hex_error_text(spk.script_public_key@))
            } else {
                None
            }
        },
        None => None,
    }
}

/// Whether `k` is the consensus form of `output`; a missing script counts as an
/// empty one.
pub open spec fn output_converts(output: TransactionOutput, k: KaspaOutput) -> bool {
    &&& k.value == output.value
    &&& match output.script_public_key {
        Some(spk) => k.script_version == spk.version && k.script@ == text::hex_decoded(
            encode_utf8(spk.script_public_key@),
        ),
        None => k.script_version == 0 && k.script@.len() == 0,
    }
}

/// Why a transaction cannot be converted: the version, the first flawed input,
/// the first flawed output and the subnetwork id are looked at in this order.
pub open spec fn transaction_flaw(tx: Transaction) -> Option<Seq<char>> {
    if tx.version > u16::MAX {
        Some("Invalid transaction version"@)
    } else {
        match reasons::first_reason(
            tx.inputs@.map_values(|input: TransactionInput| input_flaw(input, tx.version as u16)),
        ) {
            Some(reason) => Some(reason),
            None => match reasons::first_reason(
                tx.outputs@.map_values(|output: TransactionOutput| output_flaw(output)),
            ) {
                Some(reason) => Some(reason),
                None => if tx.subnetwork_id@.len() != SUBNETWORK_ID_SIZE
                    && tx.subnetwork_id@.len() != 0 {
                    Some(
                        "Invalid subnetwork_id length: expected 20 bytes, got "@
                            + text::decimal_text(tx.subnetwork_id@.len()),
                    )
                } else {
                    None
                },
            },
        }
    }
}

/// Whether `k` is the consensus form of `tx`; a missing subnetwork id counts as
/// the native one.
pub open spec fn transaction_converts(tx: Transaction, k: KaspaTransaction) -> bool {
    &&& k.version == tx.version
    &&& k.inputs@.len() == tx.inputs@.len()
    &&& forall|i: int|
        0 <= i < k.inputs@.len() ==> input_converts(
            tx.inputs@[i],
            k.version,
            #[trigger] k.inputs@[i],
        )
    &&& k.outputs@.len() == tx.outputs@.len()
    &&& forall|i: int|
        0 <= i < k.outputs@.len() ==> output_converts(tx.outputs@[i], #[trigger] k.outputs@[i])
    &&& k.lock_time == tx.lock_time
    &&& k.subnetwork_id@ == if tx.subnetwork_id@.len() == 0 {
        Seq::new(SUBNETWORK_ID_SIZE as nat, |i: int| 0u8)
    } else {
        tx.subnetwork_id@
    }
    &&& k.gas == tx.gas
    &&& k.payload@ == tx.payload@
}

/// Copies the bytes of a transaction id.
fn id_array(id: &Vec<u8>) -> (r: [u8; TRANSACTION_ID_SIZE])
    requires
        id@.len() == TRANSACTION_ID_SIZE,
    ensures
        r@ == id@,
{
    let mut out: [u8; TRANSACTION_ID_SIZE] = [0u8;TRANSACTION_ID_SIZE];
    let mut i: usize = 0;
    while i < TRANSACTION_ID_SIZE
        invariant
            id@.len() == TRANSACTION_ID_SIZE,
            i <= TRANSACTION_ID_SIZE,
            forall|j: int| 0 <= j < i ==> out@[j] == id@[j],
        decreases TRANSACTION_ID_SIZE - i,
    {
        out[i] = id[i];
        i += 1;
    }
    assert(out@ =~= id@);
    out
}

/// Copies the bytes of a subnetwork id.
fn subnetwork_array(id: &Vec<u8>) -> (r: [u8; SUBNETWORK_ID_SIZE])
    requires
        id@.len() == SUBNETWORK_ID_SIZE,
    ensures
        r@ == id@,
{
    let mut out: [u8; SUBNETWORK_ID_SIZE] = [0u8;SUBNETWORK_ID_SIZE];
    let mut i: usize = 0;
    while i < SUBNETWORK_ID_SIZE
        invariant
            id@.len() == SUBNETWORK_ID_SIZE,
            i <= SUBNETWORK_ID_SIZE,
            forall|j: int| 0 <= j < i ==> out@[j] == id@[j],
        decreases SUBNETWORK_ID_SIZE - i,
    {
        out[i] = id[i];
        i += 1;
    }
    assert(out@ =~= id@);
    out
}

/// Converts an input to its consensus form.
fn input_to_kaspa(input: &TransactionInput, version: u16) -> (r: Result<
    KaspaInput,
    KaspaWalletError,
>)
    requires
        outpoint_sized(*input),
    ensures
        match r {
            Ok(k) => input_flaw(*input, version) is None && input_converts(*input, version, k),
            Err(e) => e matches KaspaWalletError::InternalServerError(m) && input_flaw(
                *input,
                version,
            ) == Some(m@),
        },
{
    let (transaction_id, index) = match &input.previous_outpoint {
        Some(op) => (id_array(&op.transaction_id), op.index),
        None => ([0u8;TRANSACTION_ID_SIZE], 0u32),
    };
    assert(input.previous_outpoint is None ==> transaction_id@ =~= Seq::new(
        TRANSACTION_ID_SIZE as nat,
        |i: int| 0u8,
    ));
    let mass = if version >= FIRST_COMPUTE_BUDGET_VERSION {
        if input.compute_budget > u16::MAX as u32 {
            return Err(
                KaspaWalletError::InternalServerError(
                    text::concat3(
                        "compute_budget ",
                        text::decimal(input.compute_budget as u128).as_str(),
                        " exceeds u16::MAX",
                    ),
                ),
            );
        }
        TxInputMass::ComputeBudget(input.compute_budget as u16)
    } else {
        if input.sig_op_count > u8::MAX as u32 {
            return Err(
                KaspaWalletError::InternalServerError(
                    text::concat3(
                        "sig_op_count ",
                        text::decimal(input.sig_op_count as u128).as_str(),
                        " exceeds u8::MAX",
                    ),
                ),
            );
        }
        TxInputMass::SigopCount(input.sig_op_count as u8)
    };
    Ok(
        KaspaInput {
            transaction_id,
            index,
            signature_script: bytes::copied(input.signature_script.as_slice()),
            sequence: input.sequence,
            mass,
        },
    )
}

/// Converts an output to its consensus form.
fn output_to_kaspa(output: &TransactionOutput) -> (r: Result<KaspaOutput, KaspaWalletError>)
    ensures
        match r {
            Ok(k) => output_flaw(*output) is None && output_converts(*output, k),
            Err(e) => e matches KaspaWalletError::InternalServerError(m) && output_flaw(*output)
                == Some(m@),
        },
{
    match &output.script_public_key {
        Some(spk) => {
            if spk.version > u16::MAX as u32 {
                return Err(
                    KaspaWalletError::InternalServerError(
                        String::from_str("Invalid script version"),
                    ),
                );
            }
            match outside::hex_decode(spk.script_public_key.as_str()) {
                Ok(script) => Ok(
                    KaspaOutput {
                        value: output.value,
                        script_version: spk.version as u16,
                        script,
                    },
                ),
                Err(e) => Err(
                    KaspaWalletError::InternalServerError(
                        text::concat2("Invalid script hex: ", e.as_str()),
                    ),
                ),
            }
        },
        None => Ok(KaspaOutput { value: output.value, script_version: 0, script: Vec::new() }),
    }
}

/// Converts the inputs of a transaction, stopping at the first flawed one.
fn inputs_to_kaspa(inputs: &Vec<TransactionInput>, version: u16) -> (r: Result<
    Vec<KaspaInput>,
    KaspaWalletError,
>)
    requires
        forall|i: int| 0 <= i < inputs@.len() ==> outpoint_sized(#[trigger] inputs@[i]),
    ensures
        ({
            let flaw = reasons::first_reason(
                inputs@.map_values(|input: TransactionInput| input_flaw(input, version)),
            );
            match r {
                Ok(ks) => {
                    &&& flaw is None
                    &&& ks@.len() == inputs@.len()
                    &&& forall|i: int|
                        0 <= i < ks@.len() ==> input_converts(
                            inputs@[i],
                            version,
                            #[trigger] ks@[i],
                        )
                },
                Err(e) => e matches KaspaWalletError::InternalServerError(m) && flaw == Some(m@),
            }
        }),
{
    let ghost flaws = inputs@.map_values(|input: TransactionInput| input_flaw(input, version));
    let mut out: Vec<KaspaInput> = Vec::new();
    let mut i: usize = 0;
    while i < inputs.len()
        invariant
            i <= inputs@.len(),
            out@.len() == i,
            flaws == inputs@.map_values(|input: TransactionInput| input_flaw(input, version)),
            forall|j: int| 0 <= j < inputs@.len() ==> outpoint_sized(#[trigger] inputs@[j]),
            forall|j: int| 0 <= j < i ==> #[trigger] flaws[j] is None,
            forall|j: int|
                0 <= j < out@.len() ==> input_converts(inputs@[j], version, #[trigger] out@[j]),
        decreases inputs@.len() - i,
    {
        assert(outpoint_sized(inputs@[i as int]));
        assert(flaws[i as int] == input_flaw(inputs@[i as int], version));
        match input_to_kaspa(&inputs[i], version) {
            Ok(k) => {
                out.push(k);
            },
            Err(e) => {
                proof {
                    reasons::first_reason_is_at(flaws, i as int);
                }
                return Err(e);
            },
        }
        i += 1;
    }
    proof {
        reasons::first_reason_is_none(flaws);
    }
    Ok(out)
}

/// Converts the outputs of a transaction, stopping at the first flawed one.
fn outputs_to_kaspa(outputs: &Vec<TransactionOutput>) -> (r: Result<
    Vec<KaspaOutput>,
    KaspaWalletError,
>)
    ensures
        ({
            let flaw = reasons::first_reason(
                outputs@.map_values(|output: TransactionOutput| output_flaw(output)),
            );
            match r {
                Ok(ks) => {
                    &&& flaw is None
                    &&& ks@.len() == outputs@.len()
                    &&& forall|i: int|
                        0 <= i < ks@.len() ==> output_converts(outputs@[i], #[trigger] ks@[i])
                },
                Err(e) => e matches KaspaWalletError::InternalServerError(m) && flaw == Some(m@),
            }
        }),
{
    let ghost flaws = outputs@.map_values(|output: TransactionOutput| output_flaw(output));
    let mut out: Vec<KaspaOutput> = Vec::new();
    let mut i: usize = 0;
    while i < outputs.len()
        invariant
            i <= outputs@.len(),
            out@.len() == i,
            flaws == outputs@.map_values(|output: TransactionOutput| output_flaw(output)),
            forall|j: int| 0 <= j < i ==> #[trigger] flaws[j] is None,
            forall|j: int|
                0 <= j < out@.len() ==> output_converts(outputs@[j], #[trigger] out@[j]),
        decreases outputs@.len() - i,
    {
        assert(flaws[i as int] == output_flaw(outputs@[i as int]));
        match output_to_kaspa(&outputs[i]) {
            Ok(k) => {
                out.push(k);
            },
            Err(e) => {
                proof {
                    reasons::first_reason_is_at(flaws, i as int);
                }
                return Err(e);
            },
        }
        i += 1;
    }
    proof {
        reasons::first_reason_is_none(flaws);
    }
    Ok(out)
}

/// Converts a transaction from its wire form to its consensus form.
///
/// The mass of an input is read by the version of the transaction: `sig_op_count`
/// in version 0, `compute_budget` from version 1 on. Transaction ids in outpoints
/// have a fixed size.
pub fn proto_transaction_to_kaspa(tx: &Transaction) -> (r: Result<
    KaspaTransaction,
    KaspaWalletError,
>)
    requires
        outpoints_sized(*tx),
    ensures
        match r {
            Ok(k) => transaction_flaw(*tx) is None && transaction_converts(*tx, k),
            Err(e) => e matches KaspaWalletError::InternalServerError(m) && transaction_flaw(*tx)
                == Some(m@),
        },
{
    if tx.version > u16::MAX as u32 {
        return Err(
            KaspaWalletError::InternalServerError(String::from_str("Invalid transaction version")),
        );
    }
    let version: u16 = tx.version as u16;
    let inputs = match inputs_to_kaspa(&tx.inputs, version) {
        Ok(inputs) => inputs,
        Err(e) => return Err(e),
    };
    let outputs = match outputs_to_kaspa(&tx.outputs) {
        Ok(outputs) => outputs,
        Err(e) => return Err(e),
    };
    let subnetwork_id = if tx.subnetwork_id.len() == SUBNETWORK_ID_SIZE {
        subnetwork_array(&tx.subnetwork_id)
    } else if tx.subnetwork_id.len() == 0 {
        let native = [0u8;SUBNETWORK_ID_SIZE];
        assert(native@ =~= Seq::new(SUBNETWORK_ID_SIZE as nat, |i: int| 0u8));
        native
    } else {
        return Err(
            KaspaWalletError::InternalServerError(
                text::concat2(
                    "Invalid subnetwork_id length: expected 20 bytes, got ",
                    text::decimal(tx.subnetwork_id.len() as u128).as_str(),
                ),
            ),
        );
    };
    Ok(
        KaspaTransaction {
            version,
            inputs,
            outputs,
            lock_time: tx.lock_time,
            subnetwork_id,
            gas: tx.gas,
            payload: bytes::copied(tx.payload.as_slice()),
        },
    )
}

/// Whether `input` is the wire form of `k`.
pub open spec fn input_encodes(k: KaspaInput, input: TransactionInput) -> bool {
    &&& input.previous_outpoint matches Some(op)
    &&& op.transaction_id@ == k.transaction_id@
    &&& op.index == k.index
    &&& input.signature_script@ == k.signature_script@
    &&& input.sequence == k.sequence
    &&& (input.sig_op_count, input.compute_budget) == match k.mass {
        TxInputMass::SigopCount(n) => (n as u32, 0u32),
        TxInputMass::ComputeBudget(n) => (0u32, n as u32),
    }
}

/// Whether `output` is the wire form of `k`.
pub open spec fn output_encodes(k: KaspaOutput, output: TransactionOutput) -> bool {
    &&& output.value == k.value
    &&& output.script_public_key matches Some(spk)
    &&& spk.version == k.script_version
    &&& spk.script_public_key@ == text::hex_text(k.script@)
}

/// Whether `tx` is the wire form of `k` with the given mass and id.
pub open spec fn transaction_encodes(
    k: KaspaTransaction,
    mass: u64,
    id: Seq<u8>,
    tx: Transaction,
) -> bool {
    &&& tx.version == k.version
    &&& tx.inputs@.len() == k.inputs@.len()
    &&& forall|i: int|
        0 <= i < tx.inputs@.len() ==> input_encodes(k.inputs@[i], #[trigger] tx.inputs@[i])
    &&& tx.outputs@.len() == k.outputs@.len()
    &&& forall|i: int|
        0 <= i < tx.outputs@.len() ==> output_encodes(k.outputs@[i], #[trigger] tx.outputs@[i])
    &&& tx.lock_time == k.lock_time
    &&& tx.subnetwork_id@ == k.subnetwork_id@
    &&& tx.gas == k.gas
    &&& tx.payload@ == k.payload@
    &&& tx.mass == mass
    &&& tx.id@ == id
}

/// Converts a transaction from its consensus form to its wire form.
///
/// Both mass fields of an input are always written; the one that does not count
/// is zero. The mass and the id are what consensus computes for the transaction.
pub fn kaspa_transaction_to_proto(
    kaspa_tx: &KaspaTransaction,
    mass: u64,
    id: [u8; TRANSACTION_ID_SIZE],
) -> (r: Result<Transaction, KaspaWalletError>)
    ensures
        r matches Ok(tx) && transaction_encodes(*kaspa_tx, mass, id@, tx),
{
    let mut inputs: Vec<TransactionInput> = Vec::new();
    let mut i: usize = 0;
    while i < kaspa_tx.inputs.len()
        invariant
            i <= kaspa_tx.inputs@.len(),
            inputs@.len() == i,
            forall|j: int|
                0 <= j < inputs@.len() ==> input_encodes(
                    kaspa_tx.inputs@[j],
                    #[trigger] inputs@[j],
                ),
        decreases kaspa_tx.inputs@.len() - i,
    {
        let input = &kaspa_tx.inputs[i];
        let sig_op_count: u32 = match input.mass.sig_op_count() {
            Some(n) => n as u32,
            None => 0,
        };
        let compute_budget: u32 = match input.mass.compute_budget() {
            Some(n) => n as u32,
            None => 0,
        };
        inputs.push(
            TransactionInput {
                previous_outpoint: Some(
                    TransactionOutpoint {
                        transaction_id: bytes::copied(input.transaction_id.as_slice()),
                        index: input.index,
                    },
                ),
                signature_script: bytes::copied(input.signature_script.as_slice()),
                sequence: input.sequence,
                sig_op_count,
                compute_budget,
            },
        );
        i += 1;
    }
    let mut outputs: Vec<TransactionOutput> = Vec::new();
    i = 0;
    while i < kaspa_tx.outputs.len()
        invariant
            i <= kaspa_tx.outputs@.len(),
            outputs@.len() == i,
            forall|j: int|
                0 <= j < outputs@.len() ==> output_encodes(
                    kaspa_tx.outputs@[j],
                    #[trigger] outputs@[j],
                ),
        decreases kaspa_tx.outputs@.len() - i,
    {
        let output = &kaspa_tx.outputs[i];
        outputs.push(
            TransactionOutput {
                value: output.value,
                script_public_key: Some(
                    ScriptPublicKey {
                        version: output.script_version as u32,
                        script_public_key: outside::hex_encode(output.script.as_slice()),
                    },
                ),
            },
        );
        i += 1;
    }
    Ok(
        Transaction {
            version: kaspa_tx.version as u32,
            inputs,
            outputs,
            lock_time: kaspa_tx.lock_time,
            subnetwork_id: bytes::copied(kaspa_tx.subnetwork_id.as_slice()),
            gas: kaspa_tx.gas,
            payload: bytes::copied(kaspa_tx.payload.as_slice()),
            mass,
            id: bytes::copied(id.as_slice()),
        },
    )
}

/// Whether the mass of every input is of the kind that the version calls for.
pub open spec fn masses_fit_version(k: KaspaTransaction) -> bool {
    forall|i: int|
        0 <= i < k.inputs@.len() ==> ((#[trigger] k.inputs@[i]).mass is ComputeBudget <==> k.version
            >= FIRST_COMPUTE_BUDGET_VERSION)
}

/// Whether two consensus transactions are the same in every part.
pub open spec fn same_transaction(a: KaspaTransaction, b: KaspaTransaction) -> bool {
    &&& a.version == b.version
    &&& a.inputs@.len() == b.inputs@.len()
    &&& forall|i: int| 0 <= i < a.inputs@.len() ==> same_input(#[trigger] a.inputs@[i], b.inputs@[i])
    &&& a.outputs@.len() == b.outputs@.len()
    &&& forall|i: int|
        0 <= i < a.outputs@.len() ==> same_output(#[trigger] a.outputs@[i], b.outputs@[i])
    &&& a.lock_time == b.lock_time
    &&& a.subnetwork_id@ == b.subnetwork_id@
    &&& a.gas == b.gas
    &&& a.payload@ == b.payload@
}

/// Whether two consensus inputs are the same in every part.
pub open spec fn same_input(a: KaspaInput, b: KaspaInput) -> bool {
    &&& a.transaction_id@ == b.transaction_id@
    &&& a.index == b.index
    &&& a.signature_script@ == b.signature_script@
    &&& a.sequence == b.sequence
    &&& a.mass == b.mass
}

/// Whether two consensus outputs are the same in every part.
pub open spec fn same_output(a: KaspaOutput, b: KaspaOutput) -> bool {
    &&& a.value == b.value
    &&& a.script_version == b.script_version
    &&& a.script@ == b.script@
}

/// What is encoded decodes, to the transaction that was encoded: the wire form
/// of a transaction whose input masses fit its version has no flaw, and every
/// consensus form of it is that transaction.
pub proof fn wire_form_round_trips(
    k: KaspaTransaction,
    mass: u64,
    id: Seq<u8>,
    tx: Transaction,
    back: KaspaTransaction,
)
    requires
        masses_fit_version(k),
        transaction_encodes(k, mass, id, tx),
    ensures
        outpoints_sized(tx),
        transaction_flaw(tx) is None,
        transaction_converts(tx, back) ==> same_transaction(k, back),
{
    assert forall|i: int| 0 <= i < tx.inputs@.len() implies outpoint_sized(
        #[trigger] tx.inputs@[i],
    ) by {
        assert(input_encodes(k.inputs@[i], tx.inputs@[i]));
    }
    let input_flaws = tx.inputs@.map_values(
        |input: TransactionInput| input_flaw(input, tx.version as u16),
    );
    assert forall|i: int| 0 <= i < input_flaws.len() implies #[trigger] input_flaws[i] is None by {
        assert(input_encodes(k.inputs@[i], tx.inputs@[i]));
        assert(k.inputs@[i].mass is ComputeBudget <==> k.version >= FIRST_COMPUTE_BUDGET_VERSION);
    }
    reasons::first_reason_is_none(input_flaws);
    let output_flaws = tx.outputs@.map_values(|output: TransactionOutput| output_flaw(output));
    assert forall|i: int| 0 <= i < output_flaws.len() implies #[trigger] output_flaws[i] is None by {
        assert(output_encodes(k.outputs@[i], tx.outputs@[i]));
        text::hex_text_round_trip(k.outputs@[i].script@);
    }
    reasons::first_reason_is_none(output_flaws);
    assert(tx.subnetwork_id@.len() == SUBNETWORK_ID_SIZE);
    if transaction_converts(tx, back) {
        assert forall|i: int| 0 <= i < k.inputs@.len() implies same_input(
            #[trigger] k.inputs@[i],
            back.inputs@[i],
        ) by {
            assert(input_encodes(k.inputs@[i], tx.inputs@[i]));
            assert(input_converts(tx.inputs@[i], back.version, back.inputs@[i]));
            assert(k.inputs@[i].mass is ComputeBudget <==> k.version
                >= FIRST_COMPUTE_BUDGET_VERSION);
        }
        assert forall|i: int| 0 <= i < k.outputs@.len() implies same_output(
            #[trigger] k.outputs@[i],
            back.outputs@[i],
        ) by {
            assert(output_encodes(k.outputs@[i], tx.outputs@[i]));
            assert(output_converts(tx.outputs@[i], back.outputs@[i]));
            text::hex_text_round_trip(k.outputs@[i].script@);
        }
    }
}

/// A converted transaction has every part of the original in its own place: its
/// inputs and outputs in order, their references, scripts, sequence numbers and
/// values, its lock time, gas and payload. Inputs are charged by signature
/// operations in version 0 and by compute budget in every later version.
pub proof fn conversion_keeps_every_part(tx: Transaction, k: KaspaTransaction, i: int)
    requires
        transaction_flaw(tx) is None,
        transaction_converts(tx, k),
    ensures
        k.version == tx.version,
        k.lock_time == tx.lock_time,
        k.gas == tx.gas,
        k.payload@ == tx.payload@,
        tx.subnetwork_id@.len() == 20 ==> k.subnetwork_id@ == tx.subnetwork_id@,
        tx.subnetwork_id@.len() == 0 ==> forall|j: int|
            0 <= j < 20 ==> #[trigger] k.subnetwork_id@[j] == 0,
        k.inputs@.len() == tx.inputs@.len(),
        k.outputs@.len() == tx.outputs@.len(),
        0 <= i < tx.inputs@.len() ==> {
            let from = tx.inputs@[i];
            let to = k.inputs@[i];
            &&& to.sequence == from.sequence
            &&& to.signature_script@ == from.signature_script@
            &&& from.previous_outpoint matches Some(op) ==> to.transaction_id@ == op.transaction_id@
                && to.index == op.index
            &&& tx.version == 0 ==> (to.mass matches TxInputMass::SigopCount(n) && n
                == from.sig_op_count)
            &&& tx.version >= 1 ==> (to.mass matches TxInputMass::ComputeBudget(n) && n
                == from.compute_budget)
        },
        0 <= i < tx.outputs@.len() ==> {
            let from = tx.outputs@[i];
            let to = k.outputs@[i];
            &&& to.value == from.value
            &&& from.script_public_key matches Some(spk) ==> to.script_version == spk.version
                && to.script@ == text::hex_decoded(encode_utf8(spk.script_public_key@))
            &&& from.script_public_key is None ==> to.script@.len() == 0 && to.script_version == 0
        },
{
    let input_flaws = tx.inputs@.map_values(
        |input: TransactionInput| input_flaw(input, tx.version as u16),
    );
    reasons::first_reason_is_none(input_flaws);
    if 0 <= i < tx.inputs@.len() {
        assert(input_converts(tx.inputs@[i], k.version, k.inputs@[i]));
        assert(input_flaws[i] == input_flaw(tx.inputs@[i], tx.version as u16));
        assert(input_flaws[i] is None);
    }
    if 0 <= i < tx.outputs@.len() {
        assert(output_converts(tx.outputs@[i], k.outputs@[i]));
    }
}

/// The wire form of a transaction has every part of it in its own place, with the
/// given mass and id, and with zero for the kind of mass that does not count.
pub proof fn the_wire_form_keeps_every_part(
    k: KaspaTransaction,
    mass: u64,
    id: Seq<u8>,
    tx: Transaction,
    i: int,
)
    requires
        transaction_encodes(k, mass, id, tx),
    ensures
        tx.version == k.version,
        tx.lock_time == k.lock_time,
        tx.gas == k.gas,
        tx.payload@ == k.payload@,
        tx.subnetwork_id@ == k.subnetwork_id@,
        tx.mass == mass,
        tx.id@ == id,
        tx.inputs@.len() == k.inputs@.len(),
        tx.outputs@.len() == k.outputs@.len(),
        0 <= i < k.inputs@.len() ==> {
            let from = k.inputs@[i];
            let to = tx.inputs@[i];
            &&& to.sequence == from.sequence
            &&& to.signature_script@ == from.signature_script@
            &&& to.previous_outpoint matches Some(op)
            &&& op.transaction_id@ == from.transaction_id@
            &&& op.index == from.index
            &&& from.mass matches TxInputMass::SigopCount(n) ==> to.sig_op_count == n
                && to.compute_budget == 0
            &&& from.mass matches TxInputMass::ComputeBudget(n) ==> to.compute_budget == n
                && to.sig_op_count == 0
        },
        0 <= i < k.outputs@.len() ==> {
            let from = k.outputs@[i];
            let to = tx.outputs@[i];
            &&& to.value == from.value
            &&& to.script_public_key matches Some(spk)
            &&& spk.version == from.script_version
            &&& spk.script_public_key@ == text::hex_text(from.script@)
        },
{
    if 0 <= i < k.inputs@.len() {
        assert(input_encodes(k.inputs@[i], tx.inputs@[i]));
    }
    if 0 <= i < k.outputs@.len() {
        assert(output_encodes(k.outputs@[i], tx.outputs@[i]));
    }
}

/// A transaction can be converted exactly where its numbers fit the consensus
/// form, its scripts are hexadecimal and its subnetwork id is missing or of the
/// right size.
pub proof fn fitting_transactions_convert(tx: Transaction)
    ensures
        transaction_flaw(tx) is None <==> {
            &&& tx.version <= 65535
            &&& forall|i: int|
                0 <= i < tx.inputs@.len() ==> if tx.version == 0 {
                    (#[trigger] tx.inputs@[i]).sig_op_count <= 255
                } else {
                    tx.inputs@[i].compute_budget <= 65535
                }
            &&& forall|i: int|
                0 <= i < tx.outputs@.len() ==> ((#[trigger] tx.outputs@[i]).script_public_key
                    matches Some(spk) ==> {
                    let digits = encode_utf8(spk.script_public_key@);
                    &&& spk.version <= 65535
                    &&& digits.len() % 2 == 0
                    &&& text::all_hex_digits(digits)
                })
            &&& tx.subnetwork_id@.len() == 0 || tx.subnetwork_id@.len() == 20
        },
{
    let input_flaws = tx.inputs@.map_values(
        |input: TransactionInput| input_flaw(input, tx.version as u16),
    );
    let output_flaws = tx.outputs@.map_values(|output: TransactionOutput| output_flaw(output));
    reasons::first_reason_is_none(input_flaws);
    reasons::first_reason_is_none(output_flaws);
    if tx.version <= 65535 {
        assert forall|i: int| 0 <= i < tx.inputs@.len() implies (#[trigger] input_flaws[i] is None
            <==> if tx.version == 0 {
            tx.inputs@[i].sig_op_count <= 255
        } else {
            tx.inputs@[i].compute_budget <= 65535
        }) by {}
        assert forall|i: int| 0 <= i < tx.outputs@.len() implies (#[trigger] output_flaws[i] is None
            <==> (tx.outputs@[i].script_public_key matches Some(spk) ==> {
            let digits = encode_utf8(spk.script_public_key@);
            &&& spk.version <= 65535
            &&& digits.len() % 2 == 0
            &&& text::all_hex_digits(digits)
        })) by {}
        if transaction_flaw(tx) is None {
            assert forall|i: int| 0 <= i < tx.inputs@.len() implies if tx.version == 0 {
                (#[trigger] tx.inputs@[i]).sig_op_count <= 255
            } else {
                tx.inputs@[i].compute_budget <= 65535
            } by {
                assert(input_flaws[i] is None);
            }
            assert forall|i: int| 0 <= i < tx.outputs@.len() implies ((
            #[trigger] tx.outputs@[i]).script_public_key matches Some(spk) ==> {
                let digits = encode_utf8(spk.script_public_key@);
                &&& spk.version <= 65535
                &&& digits.len() % 2 == 0
                &&& text::all_hex_digits(digits)
            }) by {
                assert(output_flaws[i] is None);
            }
        } else {
            if first_flaw_is_among(input_flaws) {
                let i = choose|i: int|
                    0 <= i < input_flaws.len() && !(#[trigger] input_flaws[i] is None);
                assert(tx.inputs@[i].sig_op_count >= 0);
            } else if first_flaw_is_among(output_flaws) {
                let i = choose|i: int|
                    0 <= i < output_flaws.len() && !(#[trigger] output_flaws[i] is None);
                assert(tx.outputs@[i].value >= 0);
            }
        }
    }
}

/// Whether some entry of a list of optional reasons is a reason.
spec fn first_flaw_is_among(flaws: Seq<Option<Seq<char>>>) -> bool {
    exists|i: int| 0 <= i < flaws.len() && !(#[trigger] flaws[i] is None)
}

} // verus!
