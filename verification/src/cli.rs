//! Command-line defaults, the signer configuration record, and the checks a
//! validator runs over a loaded genesis configuration.
//!
//! Argument parsing, file loading and process bootstrap are outside glue;
//! here are the values they start from and the decisions they defer to.

use crate::hashing::{bytes_eq, HashValue};
use crate::net::VALIDATOR_PORT_RANGE_STR;
use vstd::prelude::*;

verus! {

/// The default values the command line starts from.
#[derive(Debug)]
pub struct DefaultArgs {
    pub bind_address: &'static str,
    pub dynamic_port_range: &'static str,
    pub ledger_path: &'static str,
}

impl DefaultArgs {
    /// Bind everywhere, keep the ledger beside the process, use the default
    /// dynamic port range.
    pub fn new() -> (r: DefaultArgs)
        ensures
            r.bind_address@ == "0.0.0.0"@,
            r.ledger_path@ == "ledger"@,
            r.dynamic_port_range@ == VALIDATOR_PORT_RANGE_STR@,
    {
        DefaultArgs {
            bind_address: "0.0.0.0",
            ledger_path: "ledger",
            dynamic_port_range: VALIDATOR_PORT_RANGE_STR,
        }
    }
}

/// The command-line signing configuration: where the default signing source
/// lives.  Loading and saving it are file work done by outside glue.
#[derive(Debug, PartialEq, Eq)]
pub struct Config {
    /// The default signing source; usually a keypair file path, named this
    /// way for compatibility.
    pub keypair_path: String,
}

/// How far ahead of the current epoch a leader schedule may reach.
pub const MAX_LEADER_SCHEDULE_EPOCH_OFFSET: u64 = 3;

/// A failure of the genesis checks a validator runs before starting.
#[derive(Debug, PartialEq, Eq)]
pub enum GenesisCheckError {
    /// The loaded genesis hashes to something other than the caller
    /// demanded.
    GenesisHashMismatch,
}

/// The ceiling of `a / b`.
pub open spec fn spec_div_ceil(a: u64, b: u64) -> int
    recommends
        b > 0,
{
    (a + b - 1) / (b as int)
}

/// How many epochs ahead the leader schedule reaches, given the genesis
/// epoch-schedule parameters.
pub fn leader_epoch_offset(leader_schedule_slot_offset: u64, slots_per_epoch: u64) -> (r: u64)
    requires
        slots_per_epoch >= 1,
    ensures
        r == spec_div_ceil(leader_schedule_slot_offset, slots_per_epoch),
{
    let d: u64 = leader_schedule_slot_offset / slots_per_epoch;
    let m: u64 = leader_schedule_slot_offset % slots_per_epoch;
    let r: u64 = if m == 0 {
        d
    } else {
        proof {
            assert(slots_per_epoch >= 2 && d <= leader_schedule_slot_offset / 2)
                by (nonlinear_arith)
                requires
                    d == leader_schedule_slot_offset / slots_per_epoch,
                    m == leader_schedule_slot_offset % slots_per_epoch,
                    m != 0,
                    slots_per_epoch >= 1,
            ;
        }
        d + 1
    };
    proof {
        let a = leader_schedule_slot_offset as int;
        let b = slots_per_epoch as int;
        assert((a + b - 1) / b == a / b + (if a % b == 0 { 0int } else { 1int }))
            by (nonlinear_arith)
            requires
                b >= 1,
                a >= 0,
        ;
    }
    r
}

/// The checks a validator runs over a loaded genesis configuration: the
/// leader schedule must not reach too far ahead (anything further is a
/// configuration the caller must rule out first), and when the caller
/// demands a specific genesis hash, the loaded one must match it.
pub fn genesis_checks(
    leader_schedule_slot_offset: u64,
    slots_per_epoch: u64,
    genesis_hash: &HashValue,
    expected_genesis_hash: &Option<HashValue>,
) -> (r: Result<(), GenesisCheckError>)
    requires
        slots_per_epoch >= 1,
        spec_div_ceil(leader_schedule_slot_offset, slots_per_epoch)
            <= MAX_LEADER_SCHEDULE_EPOCH_OFFSET,
    ensures
        r is Ok <==> (match *expected_genesis_hash {
            None => true,
            Some(ref expected) => genesis_hash@ == expected@,
        }),
        r is Err ==> r == Result::<(), GenesisCheckError>::Err(
            GenesisCheckError::GenesisHashMismatch,
        ),
{
    let offset: u64 = leader_epoch_offset(leader_schedule_slot_offset, slots_per_epoch);
    proof {
        assert(offset <= MAX_LEADER_SCHEDULE_EPOCH_OFFSET);
    }
    match expected_genesis_hash {
        None => Ok(()),
        Some(expected) => {
            if bytes_eq(genesis_hash.as_slice(), expected.as_slice()) {
                Ok(())
            } else {
                Err(GenesisCheckError::GenesisHashMismatch)
            }
        },
    }
}

} // verus!
