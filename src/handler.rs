//! The handling of one reaction event, as a state machine.
//!
//! Each inbound reaction event starts a fresh `Handling`. The machine names
//! the next platform call to make (`Action`); the runner makes it and hands the
//! result back (`Outcome`), until the machine answers `Finish`. Nothing is kept
//! from one event to the next: every decision rests on the live channel and
//! message that the runner fetched for this event.
use crate::channel::{channel_is_eligible, Channel};
use crate::emoji::{is_pin_emoji, Emoji};
use vstd::prelude::*;

verus! {

/// Whether a reaction was added to a message or removed from it.
#[derive(Clone, Copy, Debug, PartialEq, Eq, Structural)]
pub enum ReactionKind {
    Added,
    Removed,
}

/// A change to a message's pinned state.
#[derive(Clone, Copy, Debug, PartialEq, Eq, Structural)]
pub enum Call {
    Pin,
    Unpin,
}

/// What the runner is asked to do next.
#[derive(Clone, Copy, Debug, PartialEq, Eq, Structural)]
pub enum Action {
    /// Fetch the channel the reaction was made in.
    FetchChannel,
    /// Fetch the message the reaction was made on, with its reactions.
    FetchMessage,
    /// Pin or unpin the message.
    Perform(Call),
    /// Log the failure of the call at error level and add the cross-mark
    /// reaction to the message.
    FlagFailure(Call),
    /// Stop handling this event.
    Finish,
}

/// What the runner reports after doing what it was asked.
#[derive(Clone, Debug)]
pub enum Outcome {
    ChannelFetched(Channel),
    /// The message's current reactions.
    MessageFetched(Vec<Emoji>),
    CallDone { succeeded: bool },
    /// The cross-mark reaction was attempted; whether it took is of no
    /// consequence.
    FlagDone { succeeded: bool },
}

/// Where the handling of an event stands.
#[derive(Clone, Copy, Debug, PartialEq, Eq, Structural)]
pub enum Phase {
    AwaitingChannel,
    AwaitingMessage,
    AwaitingCall,
    AwaitingFlag,
    Done,
}

/// The state of the handling of one reaction event.
#[derive(Clone, Copy, Debug, PartialEq, Eq, Structural)]
pub struct Handling {
    pub kind: ReactionKind,
    /// Whether the event's emoji is the pushpin.
    pub pin_emoji: bool,
    pub phase: Phase,
}

/// The call that an eligible event of this kind leads to.
pub open spec fn call_for(kind: ReactionKind) -> Call {
    match kind {
        ReactionKind::Added => Call::Pin,
        ReactionKind::Removed => Call::Unpin,
    }
}

/// Whether any of the reactions is the pushpin.
pub open spec fn pin_remains(reactions: Seq<Emoji>) -> bool {
    exists|i: int| 0 <= i < reactions.len() && is_pin_emoji(#[trigger] reactions[i])
}

/// The state in which the handling of an event begins.
pub open spec fn initial(kind: ReactionKind, emoji: Emoji) -> Handling {
    Handling { kind, pin_emoji: is_pin_emoji(emoji), phase: Phase::AwaitingChannel }
}

/// The state that `Finish` leaves behind.
pub open spec fn finished(s: Handling) -> (Handling, Action) {
    (Handling { phase: Phase::Done, ..s }, Action::Finish)
}

/// The next state and action, given the outcome of the last action.
///
/// A channel that is private, a topic without the keyword, or an emoji other
/// than the pushpin ends the handling. Otherwise the message is fetched and,
/// for an added reaction, pinned; for a removed one, unpinned unless a pushpin
/// reaction remains on it. A failed call is flagged once, and whatever then
/// comes of the flag, the handling ends. An outcome that does not answer the
/// pending action ends it too.
pub open spec fn next(s: Handling, o: Outcome) -> (Handling, Action) {
    match (s.phase, o) {
        (Phase::AwaitingChannel, Outcome::ChannelFetched(c)) => {
            if s.pin_emoji && channel_is_eligible(c) {
                (Handling { phase: Phase::AwaitingMessage, ..s }, Action::FetchMessage)
            } else {
                finished(s)
            }
        },
        (Phase::AwaitingMessage, Outcome::MessageFetched(reactions)) => {
            if s.kind == ReactionKind::Removed && pin_remains(reactions@) {
                finished(s)
            } else {
                (Handling { phase: Phase::AwaitingCall, ..s }, Action::Perform(call_for(s.kind)))
            }
        },
        (Phase::AwaitingCall, Outcome::CallDone { succeeded }) => {
            if succeeded {
                finished(s)
            } else {
                (Handling { phase: Phase::AwaitingFlag, ..s }, Action::FlagFailure(call_for(s.kind)))
            }
        },
        _ => finished(s),
    }
}

/// Whether any of the reactions is the pushpin.
pub fn any_pin_reaction(reactions: &Vec<Emoji>) -> (r: bool)
    ensures
        r == pin_remains(reactions@),
{
    let mut i: usize = 0;
    while i < reactions.len()
        invariant
            0 <= i <= reactions.len(),
            forall|j: int| 0 <= j < i ==> !is_pin_emoji(#[trigger] reactions@[j]),
        decreases reactions.len() - i,
    {
        if reactions[i].is_pin() {
            return true;
        }
        i = i + 1;
    }
    false
}

impl Handling {
    /// Begins the handling of a reaction event; the first action is always to
    /// fetch the channel.
    pub fn start(kind: ReactionKind, emoji: &Emoji) -> (r: (Handling, Action))
        ensures
            r.0 == initial(kind, *emoji),
            r.1 == Action::FetchChannel,
    {
        let h = Handling { kind, pin_emoji: emoji.is_pin(), phase: Phase::AwaitingChannel };
        (h, Action::FetchChannel)
    }

    /// The call that this event leads to if it is eligible.
    pub fn call(&self) -> (r: Call)
        ensures
            r == call_for(self.kind),
    {
        match self.kind {
            ReactionKind::Added => Call::Pin,
            ReactionKind::Removed => Call::Unpin,
        }
    }

    fn finish(&mut self) -> (a: Action)
        ensures
            (*final(self), a) == finished(*old(self)),
    {
        self.phase = Phase::Done;
        Action::Finish
    }

    /// Takes the outcome of the last action and returns the next one.
    pub fn step(&mut self, outcome: &Outcome) -> (a: Action)
        ensures
            (*final(self), a) == next(*old(self), *outcome),
    {
        match (self.phase, outcome) {
            (Phase::AwaitingChannel, Outcome::ChannelFetched(c)) => {
                if self.pin_emoji && c.is_eligible() {
                    self.phase = Phase::AwaitingMessage;
                    Action::FetchMessage
                } else {
                    self.finish()
                }
            },
            (Phase::AwaitingMessage, Outcome::MessageFetched(reactions)) => {
                if self.kind == ReactionKind::Removed && any_pin_reaction(reactions) {
                    self.finish()
                } else {
                    self.phase = Phase::AwaitingCall;
                    Action::Perform(self.call())
                }
            },
            (Phase::AwaitingCall, Outcome::CallDone { succeeded }) => {
                if *succeeded {
                    self.finish()
                } else {
                    self.phase = Phase::AwaitingFlag;
                    Action::FlagFailure(self.call())
                }
            },
            _ => self.finish(),
        }
    }
}

} // verus!
