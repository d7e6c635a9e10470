//! Enforcement of the IGRA lane (KIP-21).

use crate::config::igra;
use crate::types::wallet::SUBNETWORK_ID_SIZE;
use vstd::prelude::*;
use vstd::string::*;

verus! {

/// Lane enforcement configuration.
#[derive(Debug, Clone, PartialEq, Eq)]
pub struct LaneConfig {
    /// The lane namespace as 8 lower-case hexadecimal digits.
    pub lane_id: Option<String>,
    /// Whether transactions are submitted without a lane.
    pub enforcement_disabled: bool,
}

impl Default for LaneConfig {
    fn default() -> (r: Self)
        ensures
            r.lane_id is None,
            !r.enforcement_disabled,
    {
        LaneConfig { lane_id: None, enforcement_disabled: false }
    }
}

impl LaneConfig {
    /// Why the configuration is refused; `None` where it is accepted.
    pub open spec fn flaw(self) -> Option<Seq<char>> {
        if self.enforcement_disabled {
            None
        } else {
            match self.lane_id {
                Some(value) => igra::lane_text_flaw(value@),
                None => Some(
                    "lane_id is not set; set IGRA_LANE_ID to a 4-byte namespace such as 97b10000"@,
                ),
            }
        }
    }

    /// A configuration without lane enforcement.
    pub fn disabled() -> (r: Self)
        ensures
            r.lane_id is None,
            r.enforcement_disabled,
    {
        LaneConfig { lane_id: None, enforcement_disabled: true }
    }

    /// The lane on which transactions must be: the configured one, or the native
    /// one where lanes are not enforced.
    pub fn expected_lane(&self) -> (r: Result<[u8; SUBNETWORK_ID_SIZE], String>)
        ensures
            match r {
                Ok(lane) => {
                    &&& self.flaw() is None
                    &&& lane@ == if self.enforcement_disabled {
                        Seq::new(SUBNETWORK_ID_SIZE as nat, |i: int| 0u8)
                    } else {
                        igra::lane_of_text(self.lane_id->0@)
                    }
                },
                Err(m) => self.flaw() == Some(m@),
            },
    {
        if self.enforcement_disabled {
            let native: [u8; SUBNETWORK_ID_SIZE] = [0u8;SUBNETWORK_ID_SIZE];
            assert(native@ =~= Seq::new(SUBNETWORK_ID_SIZE as nat, |i: int| 0u8));
            return Ok(native);
        }
        match &self.lane_id {
            Some(value) => igra::parse_lane_id(value.as_str()),
            None => Err(
                String::from_str(
                    "lane_id is not set; set IGRA_LANE_ID to a 4-byte namespace such as 97b10000",
                ),
            ),
        }
    }

    /// Validates the lane configuration.
    pub fn validate(&self) -> (r: Result<(), String>)
        ensures
            match r {
                Ok(_) => self.flaw() is None,
                Err(m) => self.flaw() == Some(m@),
            },
    {
        match self.expected_lane() {
            Ok(_) => Ok(()),
            Err(m) => Err(m),
        }
    }
}

/// Without enforcement every lane setting is accepted; with it a lane must be set
/// and its text must be accepted.
pub proof fn enforcement_needs_a_lane(config: LaneConfig)
    ensures
        config.flaw() is None <==> config.enforcement_disabled || (config.lane_id matches Some(
            value,
        ) && igra::lane_text_flaw(value@) is None),
{
}

} // verus!
