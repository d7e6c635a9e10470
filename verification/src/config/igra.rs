//! IGRA lane configuration.
//!
//! The one input form of a lane id is a 4-byte namespace as 8 lower-case
//! hexadecimal digits without `0x`. It stands for the 20-byte subnetwork id that
//! consists of the namespace and 16 zero bytes (KIP-21).

use crate::error::AppError;
use crate::outside;
use crate::text;
use crate::types::wallet::SUBNETWORK_ID_SIZE;
use vstd::prelude::*;
use vstd::string::*;
#[allow(unused_imports)]
use vstd::utf8::*;

verus! {

/// Number of bytes of a lane namespace.
pub const LANE_NAMESPACE_BYTE_LEN: usize = 4;

/// Number of hexadecimal digits of a lane namespace.
pub const LANE_NAMESPACE_HEX_LEN: usize = 8;

/// A namespace extended with zero bytes to a full subnetwork id.
pub open spec fn padded_lane(namespace: Seq<u8>) -> Seq<u8> {
    Seq::new(
        SUBNETWORK_ID_SIZE as nat,
        |i: int|
            if i < LANE_NAMESPACE_BYTE_LEN {
                namespace[i]
            } else {
                0u8
            },
    )
}

/// Whether all bytes from position `low` up to but not including `high` are zero.
pub open spec fn zero_between(bytes: Seq<u8>, low: int, high: int) -> bool {
    forall|i: int| low <= i < high ==> #[trigger] bytes[i] == 0
}

/// Whether a text holds an ASCII capital letter.
pub open spec fn has_capital(s: Seq<char>) -> bool {
    exists|i: int| 0 <= i < s.len() && 'A' <= #[trigger] s[i] && s[i] <= 'Z'
}

/// Why a lane id is refused; `None` where it is accepted.
pub open spec fn lane_flaw(lane_id: Seq<u8>) -> Option<Seq<char>> {
    if zero_between(lane_id, 0, SUBNETWORK_ID_SIZE as int) {
        Some(
            "igra.lane_id must not be the NATIVE lane (00000000); set IGRA_LANE_ID to a non-native 4-byte namespace such as 97b10000"@,
        )
    } else if !zero_between(lane_id, LANE_NAMESPACE_BYTE_LEN as int, SUBNETWORK_ID_SIZE as int) {
        Some(
            "igra.lane_id must be zero-padded per KIP-21 (bytes 4..20 all zero), got 0x"@
                + text::hex_text(lane_id),
        )
    } else if zero_between(lane_id, 1, LANE_NAMESPACE_BYTE_LEN as int) {
        Some(
            "igra.lane_id 0x"@ + text::hex_text(lane_id.take(1))
                + "000000 collides with KIP-21 reserved-system shape [x, 0×19] (covers built-in subnetworks COINBASE/REGISTRY); set a 4-byte namespace whose bytes 1..4 are not all zero, such as 97b10000"@,
        )
    } else {
        None
    }
}

/// Why the text of a lane id is refused; `None` where it is accepted.
pub open spec fn lane_text_flaw(value: Seq<char>) -> Option<Seq<char>> {
    let digits = encode_utf8(value);
    if "0x"@.is_prefix_of(value) || "0X"@.is_prefix_of(value) {
        Some(
            "igra.lane_id must not have a 0x prefix; expected 8 lowercase hex chars (e.g. 97b10000)"@,
        )
    } else if digits.len() != LANE_NAMESPACE_HEX_LEN {
        Some(
            "igra.lane_id must be exactly 8 lowercase hex chars (the 4-byte SubnetworkId namespace, e.g. 97b10000), got "@
                + text::decimal_text(digits.len()) + " chars"@,
        )
    } else if has_capital(value) {
        Some("igra.lane_id must be lowercase hex (e.g. 97b10000)"@)
    } else if !text::all_hex_digits(digits) {
        Some(
            "igra.lane_id is not valid lowercase hex (e.g. 97b10000): "@ + outside::hex_error_text(
                value,
            ),
        )
    } else if zero_between(text::hex_decoded(digits), 0, LANE_NAMESPACE_BYTE_LEN as int) {
        Some(
            "igra.lane_id must not be the NATIVE lane (00000000); set a non-native 4-byte namespace such as 97b10000"@,
        )
    } else if zero_between(text::hex_decoded(digits), 1, LANE_NAMESPACE_BYTE_LEN as int) {
        Some(
            "igra.lane_id "@ + value
                + " collides with KIP-21 reserved-system shape [x, 0×19] (covers built-in subnetworks COINBASE/REGISTRY); set a 4-byte namespace whose bytes 1..4 are not all zero, such as 97b10000"@,
        )
    } else {
        None
    }
}

/// The lane id that an accepted text stands for.
pub open spec fn lane_of_text(value: Seq<char>) -> Seq<u8> {
    padded_lane(text::hex_decoded(encode_utf8(value)))
}

/// Whether all bytes of a range are zero.
fn all_zero(bytes: &[u8], low: usize, high: usize) -> (r: bool)
    requires
        low <= high <= bytes@.len(),
    ensures
        r == zero_between(bytes@, low as int, high as int),
{
    let mut i: usize = low;
    while i < high
        invariant
            low <= i <= high <= bytes@.len(),
            zero_between(bytes@, low as int, i as int),
        decreases high - i,
    {
        if bytes[i] != 0 {
            assert(bytes@[i as int] != 0);
            return false;
        }
        i += 1;
    }
    true
}

/// Whether a text holds an ASCII capital letter.
fn contains_capital(s: &str) -> (r: bool)
    ensures
        r == has_capital(s@),
{
    let chars = text::chars_of(s);
    let mut i: usize = 0;
    while i < chars.len()
        invariant
            chars@ == s@,
            i <= chars@.len(),
            forall|j: int| 0 <= j < i ==> !('A' <= #[trigger] s@[j] && s@[j] <= 'Z'),
        decreases chars@.len() - i,
    {
        let c = chars[i];
        if 'A' <= c && c <= 'Z' {
            assert('A' <= s@[i as int] && s@[i as int] <= 'Z');
            return true;
        }
        i += 1;
    }
    false
}

/// IGRA lane configuration.
///
/// Holds the full 20-byte subnetwork id.
#[derive(Debug, Clone, PartialEq, Eq)]
pub struct IgraConfig {
    /// The subnetwork id: the namespace and 16 zero bytes.
    pub lane_id: [u8; SUBNETWORK_ID_SIZE],
}

impl IgraConfig {
    /// Builds a configuration from a namespace, padding it with zero bytes.
    ///
    /// Does not refuse native or reserved lanes: that is `validate`.
    pub fn from_namespace(namespace: [u8; LANE_NAMESPACE_BYTE_LEN]) -> (r: Self)
        ensures
            r.lane_id@ == padded_lane(namespace@),
    {
        let mut lane_id: [u8; SUBNETWORK_ID_SIZE] = [0u8;SUBNETWORK_ID_SIZE];
        lane_id[0] = namespace[0];
        lane_id[1] = namespace[1];
        lane_id[2] = namespace[2];
        lane_id[3] = namespace[3];
        assert(lane_id@ =~= padded_lane(namespace@));
        IgraConfig { lane_id }
    }

    /// A copy of the 20-byte subnetwork id.
    pub fn lane_id(&self) -> (r: [u8; SUBNETWORK_ID_SIZE])
        ensures
            r == self.lane_id,
    {
        self.lane_id
    }

    /// Validates the lane: it is not the native one, it is padded with zeros
    /// behind the namespace, and it does not have the reserved-system shape of
    /// one non-zero byte and 19 zero bytes.
    pub fn validate(&self) -> (r: Result<(), AppError>)
        ensures
            match lane_flaw(self.lane_id@) {
                Some(reason) => r matches Err(AppError::ConfigError(m)) && m@ == reason,
                None => r is Ok,
            },
    {
        let lane = self.lane_id.as_slice();
        if all_zero(lane, 0, SUBNETWORK_ID_SIZE) {
            return Err(
                AppError::ConfigError(
                    String::from_str(
                        "igra.lane_id must not be the NATIVE lane (00000000); set IGRA_LANE_ID to a non-native 4-byte namespace such as 97b10000",
                    ),
                ),
            );
        }
        if !all_zero(lane, LANE_NAMESPACE_BYTE_LEN, SUBNETWORK_ID_SIZE) {
            return Err(
                AppError::ConfigError(
                    text::concat2(
                        "igra.lane_id must be zero-padded per KIP-21 (bytes 4..20 all zero), got 0x",
                        outside::hex_encode(lane).as_str(),
                    ),
                ),
            );
        }
        if all_zero(lane, 1, LANE_NAMESPACE_BYTE_LEN) {
            let first: [u8; 1] = [self.lane_id[0]];
            assert(first@ =~= self.lane_id@.take(1));
            return Err(
                AppError::ConfigError(
                    text::concat3(
                        "igra.lane_id 0x",
                        outside::hex_encode(first.as_slice()).as_str(),
                        "000000 collides with KIP-21 reserved-system shape [x, 0×19] (covers built-in subnetworks COINBASE/REGISTRY); set a 4-byte namespace whose bytes 1..4 are not all zero, such as 97b10000",
                    ),
                ),
            );
        }
        Ok(())
    }
}

/// Reads a lane id.
///
/// Accepts only 8 lower-case hexadecimal digits. Refuses a `0x` prefix, capital
/// letters, other characters, other lengths, the native namespace and the
/// reserved-system shape.
pub fn parse_lane_id(value: &str) -> (r: Result<[u8; SUBNETWORK_ID_SIZE], String>)
    ensures
        match r {
            Ok(lane_id) => lane_text_flaw(value@) is None && lane_id@ == lane_of_text(value@),
            Err(m) => lane_text_flaw(value@) == Some(m@),
        },
{
    if text::starts_with(value, "0x") || text::starts_with(value, "0X") {
        return Err(
            String::from_str(
                "igra.lane_id must not have a 0x prefix; expected 8 lowercase hex chars (e.g. 97b10000)",
            ),
        );
    }
    let length: usize = value.as_bytes().len();
    if length != LANE_NAMESPACE_HEX_LEN {
        return Err(
            text::concat3(
                "igra.lane_id must be exactly 8 lowercase hex chars (the 4-byte SubnetworkId namespace, e.g. 97b10000), got ",
                text::decimal(length as u128).as_str(),
                " chars",
            ),
        );
    }
    if contains_capital(value) {
        return Err(String::from_str("igra.lane_id must be lowercase hex (e.g. 97b10000)"));
    }
    let namespace = match outside::hex_decode(value) {
        Ok(namespace) => namespace,
        Err(e) => return Err(
            text::concat2(
                "igra.lane_id is not valid lowercase hex (e.g. 97b10000): ",
                e.as_str(),
            ),
        ),
    };
    if all_zero(namespace.as_slice(), 0, LANE_NAMESPACE_BYTE_LEN) {
        return Err(
            String::from_str(
                "igra.lane_id must not be the NATIVE lane (00000000); set a non-native 4-byte namespace such as 97b10000",
            ),
        );
    }
    if all_zero(namespace.as_slice(), 1, LANE_NAMESPACE_BYTE_LEN) {
        return Err(
            text::concat3(
                "igra.lane_id ",
                value,
                " collides with KIP-21 reserved-system shape [x, 0×19] (covers built-in subnetworks COINBASE/REGISTRY); set a 4-byte namespace whose bytes 1..4 are not all zero, such as 97b10000",
            ),
        );
    }
    let lane = IgraConfig::from_namespace([namespace[0], namespace[1], namespace[2], namespace[3]]);
    assert(lane.lane_id@ =~= lane_of_text(value@));
    Ok(lane.lane_id)
}

/// Every lane id that is read from a text is valid.
pub proof fn parsed_lanes_are_valid(value: Seq<char>)
    requires
        lane_text_flaw(value) is None,
    ensures
        lane_flaw(lane_of_text(value)) is None,
{
    let namespace = text::hex_decoded(encode_utf8(value));
    let lane = lane_of_text(value);
    assert(namespace.len() == LANE_NAMESPACE_BYTE_LEN);
    assert(exists|i: int| 1 <= i < LANE_NAMESPACE_BYTE_LEN && #[trigger] namespace[i] != 0);
    let i = choose|i: int| 1 <= i < LANE_NAMESPACE_BYTE_LEN && #[trigger] namespace[i] != 0;
    assert(lane[i] == namespace[i]);
}

/// Every valid lane id can be written down: the hexadecimal text of its
/// namespace is accepted and stands for exactly this lane.
pub proof fn valid_lanes_have_a_text(lane_id: Seq<u8>)
    requires
        lane_id.len() == SUBNETWORK_ID_SIZE,
        lane_flaw(lane_id) is None,
    ensures
        lane_text_flaw(text::hex_text(lane_id.take(LANE_NAMESPACE_BYTE_LEN as int))) is None,
        lane_of_text(text::hex_text(lane_id.take(LANE_NAMESPACE_BYTE_LEN as int))) == lane_id,
{
    let namespace = lane_id.take(LANE_NAMESPACE_BYTE_LEN as int);
    let value = text::hex_text(namespace);
    reveal_strlit("0x");
    reveal_strlit("0X");
    text::hex_text_round_trip(namespace);
    assert(value[1] == text::digit_char(namespace[0] as int % 16));
    assert(!has_capital(value));
    assert("0x"@[1] == 'x' && "0X"@[1] == 'X');
    assert(!"0x"@.is_prefix_of(value)) by {
        if "0x"@.is_prefix_of(value) {
            assert(value.take(2)[1] == value[1]);
        }
    }
    assert(!"0X"@.is_prefix_of(value)) by {
        if "0X"@.is_prefix_of(value) {
            assert(value.take(2)[1] == value[1]);
        }
    }
    assert(exists|i: int| 1 <= i < LANE_NAMESPACE_BYTE_LEN && #[trigger] lane_id[i] != 0);
    let i = choose|i: int| 1 <= i < LANE_NAMESPACE_BYTE_LEN && #[trigger] lane_id[i] != 0;
    assert(namespace[i] == lane_id[i]);
    assert(lane_of_text(value) =~= lane_id);
}

/// A lane is accepted exactly where it is a namespace followed by sixteen zero
/// bytes and some byte of the namespace other than its first is not zero.
pub proof fn accepted_lanes_are_padded_namespaces(lane_id: Seq<u8>)
    requires
        lane_id.len() == 20,
    ensures
        lane_flaw(lane_id) is None <==> {
            &&& forall|i: int| 4 <= i < 20 ==> #[trigger] lane_id[i] == 0
            &&& lane_id[1] != 0 || lane_id[2] != 0 || lane_id[3] != 0
        },
{
    if forall|i: int| 4 <= i < 20 ==> #[trigger] lane_id[i] == 0 {
        assert(zero_between(lane_id, 4, 20));
        if lane_id[1] == 0 && lane_id[2] == 0 && lane_id[3] == 0 {
            assert(zero_between(lane_id, 1, 4)) by {
                assert forall|i: int| 1 <= i < 4 implies #[trigger] lane_id[i] == 0 by {
                    if i == 1 {
                    } else if i == 2 {
                    } else {
                        assert(i == 3);
                    }
                }
            }
        }
    }
}

/// The text of an accepted lane has eight characters, each a digit or a small
/// letter from `a` to `f`, and the lane starts with the bytes that they spell.
pub proof fn accepted_texts_are_eight_small_digits(value: Seq<char>, i: int)
    requires
        lane_text_flaw(value) is None,
    ensures
        encode_utf8(value).len() == 8,
        0 <= i < 8 ==> {
            let b = encode_utf8(value)[i];
            text::is_hex_digit(b)
        },
        !has_capital(value),
        lane_of_text(value).len() == 20,
        0 <= i < 4 ==> lane_of_text(value)[i] == 16 * text::hex_digit_value(
            encode_utf8(value)[2 * i],
        ) + text::hex_digit_value(encode_utf8(value)[2 * i + 1]),
        4 <= i < 20 ==> lane_of_text(value)[i] == 0,
{
    if 0 <= i < 4 {
        assert(text::is_hex_digit(encode_utf8(value)[2 * i]));
        assert(text::is_hex_digit(encode_utf8(value)[2 * i + 1]));
    }
}

/// Every namespace other than the native one and those of reserved shape is
/// accepted as text: its eight digits in small letters.
pub proof fn every_other_namespace_is_accepted(namespace: Seq<u8>)
    requires
        namespace.len() == 4,
        namespace[1] != 0 || namespace[2] != 0 || namespace[3] != 0,
    ensures
        lane_text_flaw(text::hex_text(namespace)) is None,
        lane_of_text(text::hex_text(namespace)).take(4) == namespace,
{
    let lane = padded_lane(namespace);
    accepted_lanes_are_padded_namespaces(lane);
    assert(lane[1] == namespace[1] && lane[2] == namespace[2] && lane[3] == namespace[3]);
    assert(lane.take(4) =~= namespace);
    valid_lanes_have_a_text(lane);
}

} // verus!
