//! The whole handling of one event against a given platform, and what it
//! issues.
use crate::channel::{channel_is_eligible, topic_is_eligible, Channel};
use crate::emoji::{is_pin_emoji, Emoji};
use crate::handler::{call_for, initial, next, pin_remains, Action, Call, Handling, Outcome, ReactionKind};
use vstd::prelude::*;

verus! {

/// The platform as the handling of one event finds it: the channel, the
/// message's reactions, and how the pin or unpin call and the cross-mark
/// reaction would turn out.
pub struct Platform {
    pub channel: Channel,
    pub reactions: Vec<Emoji>,
    pub call_succeeds: bool,
    pub flag_succeeds: bool,
}

/// What the platform answers to an action.
pub open spec fn respond(p: Platform, a: Action) -> Outcome {
    match a {
        Action::FetchChannel => Outcome::ChannelFetched(p.channel),
        Action::FetchMessage => Outcome::MessageFetched(p.reactions),
        Action::Perform(_) => Outcome::CallDone { succeeded: p.call_succeeds },
        _ => Outcome::FlagDone { succeeded: p.flag_succeeds },
    }
}

/// The actions issued from state `s`, whose pending action is `a`, for at
/// most `fuel` more steps.
pub open spec fn run_from(s: Handling, a: Action, p: Platform, fuel: nat) -> Seq<Action>
    decreases fuel,
{
    if fuel == 0 || a is Finish {
        seq![a]
    } else {
        let (s2, a2) = next(s, respond(p, a));
        seq![a] + run_from(s2, a2, p, (fuel - 1) as nat)
    }
}

/// The actions issued, in order, while one reaction event is handled.
pub open spec fn run(kind: ReactionKind, emoji: Emoji, p: Platform) -> Seq<Action> {
    run_from(initial(kind, emoji), Action::FetchChannel, p, 4)
}

/// What follows a pin or unpin call: the end if it succeeded, else one flag
/// and then the end.
pub open spec fn after_call(c: Call, succeeded: bool) -> Seq<Action> {
    if succeeded {
        seq![Action::Finish]
    } else {
        seq![Action::FlagFailure(c), Action::Finish]
    }
}

/// The handling of every event ends with `Finish`, which occurs nowhere
/// before, and issues at most one pin or unpin call.
pub proof fn law_every_run_finishes(kind: ReactionKind, emoji: Emoji, p: Platform)
    ensures
        run(kind, emoji, p).last() == Action::Finish,
        forall|i: int| 0 <= i < run(kind, emoji, p).len() - 1
            ==> run(kind, emoji, p)[i] != Action::Finish,
        forall|i: int, j: int| 0 <= i < j < run(kind, emoji, p).len()
            && run(kind, emoji, p)[i] is Perform ==> !(run(kind, emoji, p)[j] is Perform),
{
    reveal_with_fuel(run_from, 5);
    let c = call_for(kind);
    let t = run(kind, emoji, p);
    if !(is_pin_emoji(emoji) && channel_is_eligible(p.channel)) {
        assert(t =~= seq![Action::FetchChannel, Action::Finish]);
    } else if kind == ReactionKind::Removed && pin_remains(p.reactions@) {
        assert(t =~= seq![Action::FetchChannel, Action::FetchMessage, Action::Finish]);
    } else {
        assert(t =~= seq![Action::FetchChannel, Action::FetchMessage, Action::Perform(c)]
            + after_call(c, p.call_succeeds));
    }
}

/// A pushpin added in a guild channel whose topic contains the keyword leads
/// to exactly one pin call on the message.
pub proof fn law_pin_added_in_eligible_channel(emoji: Emoji, topic: Option<String>, p: Platform)
    requires
        is_pin_emoji(emoji),
        p.channel == (Channel::Guild { topic }),
        topic_is_eligible(topic),
    ensures
        run(ReactionKind::Added, emoji, p) == seq![
            Action::FetchChannel,
            Action::FetchMessage,
            Action::Perform(Call::Pin),
        ] + after_call(Call::Pin, p.call_succeeds),
{
    reveal_with_fuel(run_from, 5);
    let t = run(ReactionKind::Added, emoji, p);
    assert(t =~= seq![Action::FetchChannel, Action::FetchMessage, Action::Perform(Call::Pin)]
        + after_call(Call::Pin, p.call_succeeds));
}

/// In a guild channel whose topic lacks the keyword, no reaction leads to any
/// call beyond fetching the channel.
pub proof fn law_topic_without_keyword(
    kind: ReactionKind,
    emoji: Emoji,
    topic: Option<String>,
    p: Platform,
)
    requires
        p.channel == (Channel::Guild { topic }),
        !topic_is_eligible(topic),
    ensures
        run(kind, emoji, p) == seq![Action::FetchChannel, Action::Finish],
{
    reveal_with_fuel(run_from, 5);
    assert(run(kind, emoji, p) =~= seq![Action::FetchChannel, Action::Finish]);
}

/// A reaction with any emoji other than the pushpin, custom or unicode, leads
/// to no call beyond fetching the channel, whatever the channel.
pub proof fn law_other_emoji(kind: ReactionKind, emoji: Emoji, p: Platform)
    requires
        !is_pin_emoji(emoji),
    ensures
        run(kind, emoji, p) == seq![Action::FetchChannel, Action::Finish],
{
    reveal_with_fuel(run_from, 5);
    assert(run(kind, emoji, p) =~= seq![Action::FetchChannel, Action::Finish]);
}

/// In a private conversation no reaction leads to any call beyond fetching
/// the channel: no message fetch, no pin, no unpin.
pub proof fn law_private_channel(kind: ReactionKind, emoji: Emoji, p: Platform)
    requires
        p.channel == Channel::Private,
    ensures
        run(kind, emoji, p) == seq![Action::FetchChannel, Action::Finish],
{
    reveal_with_fuel(run_from, 5);
    assert(run(kind, emoji, p) =~= seq![Action::FetchChannel, Action::Finish]);
}

/// Removing a pushpin from a message that still carries a pushpin reaction, in
/// an eligible channel, leads to no unpin call.
pub proof fn law_pin_removed_while_another_remains(emoji: Emoji, p: Platform)
    requires
        is_pin_emoji(emoji),
        channel_is_eligible(p.channel),
        pin_remains(p.reactions@),
    ensures
        run(ReactionKind::Removed, emoji, p) == seq![
            Action::FetchChannel,
            Action::FetchMessage,
            Action::Finish,
        ],
{
    reveal_with_fuel(run_from, 5);
    assert(run(ReactionKind::Removed, emoji, p) =~= seq![
        Action::FetchChannel,
        Action::FetchMessage,
        Action::Finish,
    ]);
}

/// Removing the last pushpin from a message, in an eligible channel, leads to
/// exactly one unpin call.
pub proof fn law_last_pin_removed(emoji: Emoji, p: Platform)
    requires
        is_pin_emoji(emoji),
        channel_is_eligible(p.channel),
        !pin_remains(p.reactions@),
    ensures
        run(ReactionKind::Removed, emoji, p) == seq![
            Action::FetchChannel,
            Action::FetchMessage,
            Action::Perform(Call::Unpin),
        ] + after_call(Call::Unpin, p.call_succeeds),
{
    reveal_with_fuel(run_from, 5);
    assert(run(ReactionKind::Removed, emoji, p) =~= seq![
        Action::FetchChannel,
        Action::FetchMessage,
        Action::Perform(Call::Unpin),
    ] + after_call(Call::Unpin, p.call_succeeds));
}

/// A failed pin call is flagged exactly once, and the handling then ends
/// whether or not the flag itself took.
pub proof fn law_failed_pin_is_flagged_once(emoji: Emoji, p: Platform)
    requires
        is_pin_emoji(emoji),
        channel_is_eligible(p.channel),
        !p.call_succeeds,
    ensures
        run(ReactionKind::Added, emoji, p) == seq![
            Action::FetchChannel,
            Action::FetchMessage,
            Action::Perform(Call::Pin),
            Action::FlagFailure(Call::Pin),
            Action::Finish,
        ],
{
    reveal_with_fuel(run_from, 5);
    assert(run(ReactionKind::Added, emoji, p) =~= seq![
        Action::FetchChannel,
        Action::FetchMessage,
        Action::Perform(Call::Pin),
        Action::FlagFailure(Call::Pin),
        Action::Finish,
    ]);
}

/// Events are not deduplicated: the same pushpin reaction delivered twice to an
/// eligible channel, with both pin calls succeeding, is handled twice, each
/// time from a fresh state, and so leads to two pin calls.
pub proof fn law_duplicate_delivery_pins_twice(emoji: Emoji, p: Platform)
    requires
        is_pin_emoji(emoji),
        channel_is_eligible(p.channel),
        p.call_succeeds,
    ensures
        run(ReactionKind::Added, emoji, p) + run(ReactionKind::Added, emoji, p) == seq![
            Action::FetchChannel,
            Action::FetchMessage,
            Action::Perform(Call::Pin),
            Action::Finish,
            Action::FetchChannel,
            Action::FetchMessage,
            Action::Perform(Call::Pin),
            Action::Finish,
        ],
{
    reveal_with_fuel(run_from, 5);
    let t = run(ReactionKind::Added, emoji, p);
    assert(t =~= seq![
        Action::FetchChannel,
        Action::FetchMessage,
        Action::Perform(Call::Pin),
        Action::Finish,
    ]);
    assert(t + t =~= seq![
        Action::FetchChannel,
        Action::FetchMessage,
        Action::Perform(Call::Pin),
        Action::Finish,
        Action::FetchChannel,
        Action::FetchMessage,
        Action::Perform(Call::Pin),
        Action::Finish,
    ]);
}

} // verus!
