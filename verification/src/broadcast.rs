//! Putting a magic packet on the wire.
//!
//! A transmission is three socket operations in a fixed order: bind a UDP
//! socket to the wildcard address, allow it to send to broadcast addresses,
//! send the packet once. This module decides which operation comes next and
//! what a failure means; the caller owns the socket and performs each
//! operation it is handed:
//!
//! ```text
//! stage = Stage::first()
//! loop:
//!     outcome = perform(operation(stage, packet, target))
//!     match advance(stage, outcome):
//!         Ok(Some(next)) => stage = next
//!         Ok(None)       => the packet is sent
//!         Err(error)     => the transmission failed at error.stage
//! ```
//!
//! Nothing is retried and nothing is remembered between transmissions.

use vstd::prelude::*;
use crate::address::{BroadcastTarget, IpAddress, EPHEMERAL_PORT};

verus! {

/// `std::io::Error`, the error of the platform's socket and file calls. The
/// library carries such a value from the caller's socket back to the caller
/// and claims nothing of it.
#[verifier::external_type_specification]
#[verifier::external_body]
pub struct ExIoError(std::io::Error);

/// The three steps of a transmission, in the order they are taken.
#[derive(Clone, Copy, Debug, PartialEq, Eq)]
pub enum Stage {
    Bind,
    EnableBroadcast,
    Send,
}

/// What the caller is to do with its socket.
#[derive(Clone, Copy, Debug, PartialEq, Eq)]
pub enum SocketOp {
    /// Open a UDP socket bound to `address` and `port`.
    Bind { address: IpAddress, port: u16 },
    /// Set the socket's permission to send to broadcast addresses.
    SetBroadcast { enabled: bool },
    /// Send `payload` as one datagram to `target`.
    SendTo { payload: [u8; 102], target: BroadcastTarget },
}

/// A transmission that did not get through: the stage that failed and the
/// platform's error for it.
#[derive(Debug)]
pub struct TransmissionError {
    pub stage: Stage,
    pub cause: std::io::Error,
}

impl Stage {
    /// The stage that follows `self`, if `self` is not the last.
    pub open spec fn following(self) -> Option<Stage> {
        match self {
            Stage::Bind => Some(Stage::EnableBroadcast),
            Stage::EnableBroadcast => Some(Stage::Send),
            Stage::Send => None,
        }
    }

    /// How many stages are still to be taken, `self` included.
    pub open spec fn remaining(self) -> nat {
        match self {
            Stage::Bind => 3,
            Stage::EnableBroadcast => 2,
            Stage::Send => 1,
        }
    }

    /// The stage a transmission starts with.
    pub fn first() -> (stage: Stage)
        ensures
            stage == Stage::Bind,
    {
        Stage::Bind
    }
}

/// The socket operation of `stage` in a transmission of `packet` to `target`.
pub open spec fn operation_at(stage: Stage, packet: [u8; 102], target: BroadcastTarget) -> SocketOp {
    match stage {
        Stage::Bind => SocketOp::Bind {
            address: target.destination.spec_wildcard(),
            port: EPHEMERAL_PORT,
        },
        Stage::EnableBroadcast => SocketOp::SetBroadcast { enabled: true },
        Stage::Send => SocketOp::SendTo { payload: packet, target },
    }
}

/// What follows when the operation of `stage` has ended with `outcome`: the
/// next stage, the end of a transmission that got through, or its failure.
pub open spec fn advanced(stage: Stage, outcome: Result<(), std::io::Error>) -> Result<
    Option<Stage>,
    TransmissionError,
> {
    match outcome {
        Ok(_) => Ok(stage.following()),
        Err(cause) => Err(TransmissionError { stage, cause }),
    }
}

/// The socket operation to perform at `stage`.
///
/// The socket is bound to the wildcard address of the destination's family
/// and to an ephemeral port; broadcasting is switched on; the packet goes,
/// whole and unchanged, to the target.
pub fn operation(stage: Stage, packet: &[u8; 102], target: &BroadcastTarget) -> (op: SocketOp)
    ensures
        op == operation_at(stage, *packet, *target),
{
    match stage {
        Stage::Bind => SocketOp::Bind {
            address: target.destination.wildcard(),
            port: EPHEMERAL_PORT,
        },
        Stage::EnableBroadcast => SocketOp::SetBroadcast { enabled: true },
        Stage::Send => SocketOp::SendTo { payload: *packet, target: *target },
    }
}

/// Takes the outcome of the operation of `stage` and says how to go on.
///
/// A failure ends the transmission at once with the platform's error and the
/// stage it belongs to. A success leads to the next stage, and after the send
/// to `Ok(None)`: the transmission is over.
pub fn advance(stage: Stage, outcome: Result<(), std::io::Error>) -> (next: Result<
    Option<Stage>,
    TransmissionError,
>)
    ensures
        next == advanced(stage, outcome),
{
    match outcome {
        Ok(_) => Ok(
            match stage {
                Stage::Bind => Some(Stage::EnableBroadcast),
                Stage::EnableBroadcast => Some(Stage::Send),
                Stage::Send => None,
            },
        ),
        Err(cause) => Err(TransmissionError { stage, cause }),
    }
}

/// The result of the transmission that stands at `stage`, when the operation
/// of each stage still to come ends as `answers` says.
pub open spec fn result_from(
    stage: Stage,
    answers: spec_fn(Stage) -> Result<(), std::io::Error>,
) -> Result<(), TransmissionError>
    decreases stage.remaining(),
{
    match advanced(stage, answers(stage)) {
        Ok(Some(next)) => result_from(next, answers),
        Ok(None) => Ok(()),
        Err(error) => Err(error),
    }
}

/// The stages whose operation is performed from `stage` on, in order, when
/// the operations end as `answers` says.
pub open spec fn performed_from(
    stage: Stage,
    answers: spec_fn(Stage) -> Result<(), std::io::Error>,
) -> Seq<Stage>
    decreases stage.remaining(),
{
    match advanced(stage, answers(stage)) {
        Ok(Some(next)) => seq![stage] + performed_from(next, answers),
        _ => seq![stage],
    }
}

/// The result of a whole transmission.
pub open spec fn result_of(answers: spec_fn(Stage) -> Result<(), std::io::Error>) -> Result<
    (),
    TransmissionError,
> {
    result_from(Stage::Bind, answers)
}

/// The stages that a whole transmission goes through.
pub open spec fn performed(answers: spec_fn(Stage) -> Result<(), std::io::Error>) -> Seq<Stage> {
    performed_from(Stage::Bind, answers)
}

/// A transmission gets through exactly when binding, enabling broadcast and
/// sending all succeed; it then went through the three stages in order.
pub proof fn lemma_success(answers: spec_fn(Stage) -> Result<(), std::io::Error>)
    ensures
        result_of(answers) is Ok <==> answers(Stage::Bind) is Ok && answers(
            Stage::EnableBroadcast,
        ) is Ok && answers(Stage::Send) is Ok,
        result_of(answers) is Ok ==> performed(answers) == seq![
            Stage::Bind,
            Stage::EnableBroadcast,
            Stage::Send,
        ],
{
    reveal_with_fuel(result_from, 4);
    reveal_with_fuel(performed_from, 4);
    if result_of(answers) is Ok {
        assert(performed(answers) =~= seq![Stage::Bind, Stage::EnableBroadcast, Stage::Send]);
    }
}

/// A failed transmission reports the first operation that failed, with the
/// error of that operation, and performs nothing after it.
pub proof fn lemma_failure(answers: spec_fn(Stage) -> Result<(), std::io::Error>)
    requires
        result_of(answers) is Err,
    ensures
        ({
            let error = result_of(answers)->Err_0;
            let ran = performed(answers);
            &&& answers(error.stage) == Err::<(), std::io::Error>(error.cause)
            &&& ran.len() > 0
            &&& ran.last() == error.stage
            &&& forall|i: int| 0 <= i < ran.len() - 1 ==> answers(#[trigger] ran[i]) is Ok
        }),
{
    reveal_with_fuel(result_from, 4);
    reveal_with_fuel(performed_from, 4);
}

/// Whatever the socket answers, the packet is sent at most once, as the last
/// operation, and only through a socket that is bound and may broadcast.
pub proof fn lemma_single_send(answers: spec_fn(Stage) -> Result<(), std::io::Error>)
    ensures
        ({
            let ran = performed(answers);
            &&& 1 <= ran.len() <= 3
            &&& forall|i: int| 0 <= i < ran.len() && ran[i] == Stage::Send ==> i == ran.len() - 1
            &&& ran.contains(Stage::Send) <==> answers(Stage::Bind) is Ok && answers(
                Stage::EnableBroadcast,
            ) is Ok
            &&& forall|i: int, j: int| 0 <= i < j < ran.len() ==> ran[i] != ran[j]
        }),
{
    reveal_with_fuel(performed_from, 4);
    let ran = performed(answers);
    if answers(Stage::Bind) is Ok && answers(Stage::EnableBroadcast) is Ok {
        assert(ran =~= seq![Stage::Bind, Stage::EnableBroadcast, Stage::Send]);
        assert(ran[2] == Stage::Send);
    } else if answers(Stage::Bind) is Ok {
        assert(ran =~= seq![Stage::Bind, Stage::EnableBroadcast]);
    } else {
        assert(ran =~= seq![Stage::Bind]);
    }
}

/// Two transmissions to which the socket answers alike go through the same
/// stages and end alike: none leaves anything behind for the next, and a
/// packet that was sent before is sent again.
pub proof fn lemma_repeatable(
    first: spec_fn(Stage) -> Result<(), std::io::Error>,
    second: spec_fn(Stage) -> Result<(), std::io::Error>,
)
    requires
        first(Stage::Bind) == second(Stage::Bind),
        first(Stage::EnableBroadcast) == second(Stage::EnableBroadcast),
        first(Stage::Send) == second(Stage::Send),
    ensures
        performed(first) == performed(second),
        result_of(first) == result_of(second),
{
    reveal_with_fuel(result_from, 4);
    reveal_with_fuel(performed_from, 4);
}

} // verus!
