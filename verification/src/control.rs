//! Control messages, the commands that pace or stop a running task, and the
//! channel that carries them.

use vstd::prelude::*;
use crossbeam_channel::{Receiver, RecvError, SendError, Sender};

verus! {

/// A command for a task's run loop.
#[derive(Clone, Copy, Debug, PartialEq, Eq, Structural)]
pub enum ControlMessage {
    /// Pause for the given number of milliseconds, then evaluate.
    Suspend(u32),
    /// Stop now.
    Terminate,
}

impl ControlMessage {
    /// A pause has a positive length: on the channel, zero is the order to
    /// stop and nothing else.
    pub open spec fn wf(self) -> bool {
        self matches ControlMessage::Suspend(millis) ==> millis > 0
    }

    /// The integer that stands for a message on the channel: zero stops the
    /// task, a positive value is a pause of that many milliseconds.
    pub open spec fn wire(self) -> u32 {
        match self {
            ControlMessage::Suspend(millis) => millis,
            ControlMessage::Terminate => 0u32,
        }
    }

    /// The message that an integer taken from the channel stands for.
    pub open spec fn of_wire(raw: u32) -> ControlMessage {
        if raw == 0 {
            ControlMessage::Terminate
        } else {
            ControlMessage::Suspend(raw)
        }
    }

    /// The message that asks for a pause of `millis` milliseconds. There is
    /// none for a pause of no length.
    pub open spec fn pause_of(millis: u32) -> Option<ControlMessage> {
        if millis == 0 {
            None
        } else {
            Some(ControlMessage::Suspend(millis))
        }
    }

    /// Whether the message can be sent: whether it is the order to stop or
    /// a pause of positive length.
    pub fn is_valid(&self) -> (ok: bool)
        ensures
            ok == self.wf(),
    {
        match self {
            ControlMessage::Suspend(millis) => *millis > 0,
            ControlMessage::Terminate => true,
        }
    }

    /// The message for a pause of `millis` milliseconds; `None` where
    /// `millis` is zero, which no pause is written as.
    pub fn pause(millis: u32) -> (msg: Option<ControlMessage>)
        ensures
            msg == Self::pause_of(millis),
    {
        if millis == 0 {
            None
        } else {
            Some(ControlMessage::Suspend(millis))
        }
    }

    /// The integer that is put on the channel for the message. A pause of
    /// no length has none of its own and is left out.
    pub fn to_wire(self) -> (raw: u32)
        requires
            self.wf(),
        ensures
            raw == self.wire(),
            raw == 0 <==> self == ControlMessage::Terminate,
    {
        match self {
            ControlMessage::Suspend(millis) => millis,
            ControlMessage::Terminate => 0,
        }
    }

    /// The message that an integer taken from the channel stands for.
    pub fn from_wire(raw: u32) -> (msg: ControlMessage)
        ensures
            msg == Self::of_wire(raw),
            msg.wf(),
            msg.wire() == raw,
    {
        if raw == 0 {
            ControlMessage::Terminate
        } else {
            ControlMessage::Suspend(raw)
        }
    }

    /// Every integer stands for one message, and a message is read back
    /// from its integer as it was written.
    pub proof fn law_wire_round_trip(msg: ControlMessage, raw: u32)
        ensures
            Self::of_wire(raw).wf(),
            Self::of_wire(raw).wire() == raw,
            msg.wf() ==> Self::of_wire(msg.wire()) == msg,
    {
    }

    /// A pause is never read as the order to stop: the integer of a pause
    /// is positive, and only the order to stop is written as zero.
    pub proof fn law_pause_is_not_stop(millis: u32)
        ensures
            Self::pause_of(millis) matches Some(msg) ==> msg.wf() && msg.wire() == millis
                && msg.wire() > 0 && Self::of_wire(msg.wire()) == ControlMessage::Suspend(millis),
            Self::pause_of(millis) is None <==> millis == 0,
            ControlMessage::Terminate.wire() == 0,
    {
    }
}

/// The sending end of a channel of the `crossbeam_channel` crate. Nothing is
/// known of a value of this type.
#[verifier::external_type_specification]
#[verifier::external_body]
#[verifier::reject_recursive_types(T)]
pub struct ExSender<T>(Sender<T>);

/// The receiving end of a channel of the `crossbeam_channel` crate. Nothing
/// is known of a value of this type.
#[verifier::external_type_specification]
#[verifier::external_body]
#[verifier::reject_recursive_types(T)]
pub struct ExReceiver<T>(Receiver<T>);

/// The error of `Sender::send`: the channel is disconnected.
#[verifier::external_type_specification]
#[verifier::external_body]
#[verifier::reject_recursive_types(T)]
pub struct ExSendError<T>(SendError<T>);

/// The error of `Receiver::recv`: the channel is empty and disconnected.
#[verifier::external_type_specification]
#[verifier::external_body]
pub struct ExRecvError(RecvError);

/// `crossbeam_channel::unbounded` makes the two ends of a new channel.
/// Nothing is claimed of them.
pub assume_specification<T>[ crossbeam_channel::unbounded::<T> ]() -> (ends: (
    Sender<T>,
    Receiver<T>,
));

/// `Sender::send` hands a message to the channel, or fails when every
/// receiver is gone. Which of the two happens depends on the other end, so
/// nothing is claimed of the result.
pub assume_specification<T>[ Sender::<T>::send ](tx: &Sender<T>, msg: T) -> (sent: Result<
    (),
    SendError<T>,
>);

/// `Receiver::recv` blocks until a message is there, or fails when the
/// channel is empty and every sender is gone. Nothing is claimed of the
/// result.
pub assume_specification<T>[ Receiver::<T>::recv ](rx: &Receiver<T>) -> (received: Result<
    T,
    RecvError,
>);

/// The control channel of a task is closed: its other end is gone.
#[derive(Clone, Copy, Debug, PartialEq, Eq, Structural)]
pub struct ChannelFault;

/// What a send amounts to: delivered, or a channel fault.
pub fn delivery(sent: Result<(), SendError<u32>>) -> (r: Result<(), ChannelFault>)
    ensures
        r is Ok <==> sent is Ok,
{
    match sent {
        Ok(_) => Ok(()),
        Err(_) => Err(ChannelFault),
    }
}

/// Puts `msg` on the channel, in its integer form. Sending never waits: the
/// channel takes any number of messages. The send fails when the receiving
/// end is gone, which only the other side decides.
pub fn send_message(tx: &Sender<u32>, msg: ControlMessage) -> (r: Result<(), ChannelFault>)
    requires
        msg.wf(),
{
    delivery(tx.send(msg.to_wire()))
}

} // verus!
