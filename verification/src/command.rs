//! What the tool does for a machine once its section of the configuration is
//! known: what to send to wake it, what to run to put it to sleep, and how
//! the run is judged.

use vstd::prelude::*;
use crate::address::BroadcastTarget;
use crate::config::{RunError, SleepCommand, WOLConfig};
use crate::wake::{magic_packet, make_packet};

verus! {

/// Exit code of a run that did what it was asked to.
pub const EXIT_SUCCESS: i32 = 0;

/// Exit code of a run that ended in an error.
pub const EXIT_FAILURE: i32 = 1;

/// All that is needed to wake a machine: the packet and where to send it.
#[derive(Clone, Copy, Debug, PartialEq, Eq)]
pub struct WakePlan {
    pub packet: [u8; 102],
    pub target: BroadcastTarget,
}

/// Plans the wake-up of the machine that `config` describes.
///
/// The packet is the magic packet of the machine's hardware address. It goes
/// to the broadcast address and the port of the configuration, and where the
/// configuration names none, to 255.255.255.255 and to port 9.
pub fn plan_wake(config: &WOLConfig) -> (plan: WakePlan)
    ensures
        plan.packet@ == magic_packet(config.mac_address@),
        plan.target == BroadcastTarget::resolved(config.broadcast_address, config.port),
{
    WakePlan {
        packet: make_packet(&config.mac_address),
        target: BroadcastTarget::resolve(config.broadcast_address, config.port),
    }
}

/// Takes the command that puts the machine to sleep out of its configuration;
/// a configuration without one gives `NoSleepCommand`.
pub fn plan_sleep(config: WOLConfig) -> (plan: Result<SleepCommand, RunError>)
    ensures
        match config.sleep_command {
            Some(command) => plan == Ok::<SleepCommand, RunError>(command),
            None => plan matches Err(RunError::NoSleepCommand),
        },
{
    match config.sleep_command {
        Some(command) => Ok(command),
        None => Err(RunError::NoSleepCommand),
    }
}

/// Judges the sleep command by how it ended: a command that reported
/// success put the machine to sleep, any other gives `SleepCommandFailed`.
pub fn sleep_result(succeeded: bool) -> (result: Result<(), RunError>)
    ensures
        succeeded ==> result is Ok,
        !succeeded ==> result matches Err(RunError::SleepCommandFailed),
{
    if succeeded {
        Ok(())
    } else {
        Err(RunError::SleepCommandFailed)
    }
}

/// The exit code of a run: 0 when it went through, 1 for every error.
pub fn exit_code(outcome: &Result<(), RunError>) -> (code: i32)
    ensures
        code == if outcome is Ok { EXIT_SUCCESS } else { EXIT_FAILURE },
{
    match outcome {
        Ok(_) => EXIT_SUCCESS,
        Err(_) => EXIT_FAILURE,
    }
}

} // verus!
