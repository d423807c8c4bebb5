use pinbot::channel::{topic_mentions_keyword, Channel};
use pinbot::emoji::{Emoji, CROSS_MARK_GLYPH, PIN_GLYPH};
use pinbot::handler::{any_pin_reaction, Action, Call, Handling, Outcome, ReactionKind};

const PUSHPIN: &str = "\u{1F4CC}";
const ROUND_PUSHPIN: &str = "\u{1F4CD}";

fn unicode(s: &str) -> Emoji {
    Emoji::Unicode(s.to_string())
}

fn guild(topic: &str) -> Channel {
    Channel::Guild { topic: Some(topic.to_string()) }
}

/// Handles one event against a simulated platform and returns every action
/// the handler issued, the final `Finish` included.
fn drive(
    kind: ReactionKind,
    emoji: &Emoji,
    channel: &Channel,
    reactions: &[Emoji],
    call_succeeds: bool,
    flag_succeeds: bool,
) -> Vec<Action> {
    let (mut handling, mut action) = Handling::start(kind, emoji);
    let mut issued = vec![action];
    while action != Action::Finish {
        let outcome = match action {
            Action::FetchChannel => Outcome::ChannelFetched(channel.clone()),
            Action::FetchMessage => Outcome::MessageFetched(reactions.to_vec()),
            Action::Perform(_) => Outcome::CallDone { succeeded: call_succeeds },
            Action::FlagFailure(_) => Outcome::FlagDone { succeeded: flag_succeeds },
            Action::Finish => unreachable!(),
        };
        action = handling.step(&outcome);
        issued.push(action);
        assert!(issued.len() <= 5);
    }
    issued
}

fn count(actions: &[Action], target: Action) -> usize {
    actions.iter().filter(|a| **a == target).count()
}

#[test]
fn pin_added_in_channel_whose_topic_has_keyword() {
    let channel = guild("\u{1F4CC} Pin important stuff here");
    let issued = drive(ReactionKind::Added, &unicode(PUSHPIN), &channel, &[unicode(PUSHPIN)], true, true);
    assert_eq!(count(&issued, Action::Perform(Call::Pin)), 1);
    assert_eq!(
        issued,
        vec![Action::FetchChannel, Action::FetchMessage, Action::Perform(Call::Pin), Action::Finish]
    );
}

#[test]
fn pin_added_in_channel_without_keyword() {
    let issued = drive(ReactionKind::Added, &unicode(PUSHPIN), &guild("Discussion"), &[unicode(PUSHPIN)], true, true);
    assert_eq!(count(&issued, Action::Perform(Call::Pin)), 0);
    assert_eq!(issued, vec![Action::FetchChannel, Action::Finish]);
}

#[test]
fn lowercase_keyword_does_not_count() {
    let issued = drive(ReactionKind::Added, &unicode(PUSHPIN), &guild("pinboard"), &[], true, true);
    assert_eq!(issued, vec![Action::FetchChannel, Action::Finish]);
}

#[test]
fn channel_without_topic_is_not_eligible() {
    let channel = Channel::Guild { topic: None };
    let issued = drive(ReactionKind::Added, &unicode(PUSHPIN), &channel, &[], true, true);
    assert_eq!(issued, vec![Action::FetchChannel, Action::Finish]);
}

#[test]
fn round_pushpin_does_not_pin() {
    let channel = guild("Pinned Announcements");
    let issued = drive(ReactionKind::Added, &unicode(ROUND_PUSHPIN), &channel, &[unicode(ROUND_PUSHPIN)], true, true);
    assert_eq!(count(&issued, Action::Perform(Call::Pin)), 0);
    assert_eq!(issued, vec![Action::FetchChannel, Action::Finish]);
}

#[test]
fn custom_emoji_named_like_pushpin_does_not_pin() {
    let custom = Emoji::Custom { animated: false, id: 42, name: Some("pushpin".to_string()) };
    let issued = drive(ReactionKind::Added, &custom, &guild("Pin board"), &[], true, true);
    assert_eq!(issued, vec![Action::FetchChannel, Action::Finish]);
}

#[test]
fn removal_while_another_pushpin_remains() {
    let issued = drive(ReactionKind::Removed, &unicode(PUSHPIN), &guild("Pins"), &[unicode(PUSHPIN)], true, true);
    assert_eq!(count(&issued, Action::Perform(Call::Unpin)), 0);
    assert_eq!(issued, vec![Action::FetchChannel, Action::FetchMessage, Action::Finish]);
}

#[test]
fn removal_of_last_pushpin_unpins() {
    let remaining = [unicode("\u{1F44D}")];
    let issued = drive(ReactionKind::Removed, &unicode(PUSHPIN), &guild("Pins"), &remaining, true, true);
    assert_eq!(count(&issued, Action::Perform(Call::Unpin)), 1);
    assert_eq!(
        issued,
        vec![Action::FetchChannel, Action::FetchMessage, Action::Perform(Call::Unpin), Action::Finish]
    );
}

#[test]
fn custom_pushpin_left_on_message_still_unpins() {
    let remaining = [Emoji::Custom { animated: false, id: 7, name: Some("\u{1F4CC}".to_string()) }];
    let issued = drive(ReactionKind::Removed, &unicode(PUSHPIN), &guild("Pins"), &remaining, true, true);
    assert_eq!(count(&issued, Action::Perform(Call::Unpin)), 1);
}

#[test]
fn private_channel_is_ignored() {
    for kind in [ReactionKind::Added, ReactionKind::Removed] {
        let issued = drive(kind, &unicode(PUSHPIN), &Channel::Private, &[], true, true);
        assert_eq!(issued, vec![Action::FetchChannel, Action::Finish]);
    }
}

#[test]
fn failed_pin_is_flagged_once() {
    for flag_succeeds in [true, false] {
        let issued = drive(ReactionKind::Added, &unicode(PUSHPIN), &guild("Pin here"), &[], false, flag_succeeds);
        assert_eq!(
            issued,
            vec![
                Action::FetchChannel,
                Action::FetchMessage,
                Action::Perform(Call::Pin),
                Action::FlagFailure(Call::Pin),
                Action::Finish,
            ]
        );
    }
}

#[test]
fn failed_unpin_is_flagged_once() {
    let issued = drive(ReactionKind::Removed, &unicode(PUSHPIN), &guild("Pin here"), &[], false, false);
    assert_eq!(count(&issued, Action::FlagFailure(Call::Unpin)), 1);
    assert_eq!(issued.last(), Some(&Action::Finish));
}

#[test]
fn duplicate_event_pins_twice() {
    let channel = guild("Pin important stuff here");
    let mut pins = 0;
    for _ in 0..2 {
        let issued = drive(ReactionKind::Added, &unicode(PUSHPIN), &channel, &[unicode(PUSHPIN)], true, true);
        pins += count(&issued, Action::Perform(Call::Pin));
    }
    assert_eq!(pins, 2);
}

#[test]
fn outcome_out_of_turn_finishes() {
    let (mut handling, _) = Handling::start(ReactionKind::Added, &unicode(PUSHPIN));
    assert_eq!(handling.step(&Outcome::CallDone { succeeded: true }), Action::Finish);
}

#[test]
fn emoji_predicates() {
    assert!(unicode(PUSHPIN).is_pin());
    assert!(!unicode(ROUND_PUSHPIN).is_pin());
    assert!(!unicode("").is_pin());
    assert!(unicode("x").unicode_eq("x"));
    assert!(!unicode("x").unicode_eq("y"));
    assert_eq!(PIN_GLYPH, PUSHPIN);
    match Emoji::cross_mark() {
        Emoji::Unicode(s) => assert_eq!(s, "\u{274C}"),
        Emoji::Custom { .. } => panic!("cross mark must be a unicode emoji"),
    }
    assert_eq!(CROSS_MARK_GLYPH, "\u{274C}");
}

#[test]
fn topic_keyword_matching() {
    assert!(topic_mentions_keyword(&Some("Pinboard".to_string())));
    assert!(topic_mentions_keyword(&Some("the Pin".to_string())));
    assert!(!topic_mentions_keyword(&Some("pin".to_string())));
    assert!(!topic_mentions_keyword(&Some("Pi n".to_string())));
    assert!(!topic_mentions_keyword(&None));
    assert!(!Channel::Private.is_eligible());
    assert!(Channel::Private.is_private());
    assert!(guild("Pins").is_eligible());
    assert!(!guild("Pins").is_private());
}

#[test]
fn pin_reaction_scan() {
    assert!(!any_pin_reaction(&vec![]));
    assert!(any_pin_reaction(&vec![unicode("a"), unicode(PUSHPIN)]));
    assert!(!any_pin_reaction(&vec![unicode("a"), unicode(ROUND_PUSHPIN)]));
}
