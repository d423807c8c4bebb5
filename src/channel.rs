//! Channels and the topic rule that makes a channel eligible for pinning.
use vstd::prelude::*;

verus! {

/// The text a channel topic must contain, case-sensitively, for reactions in
/// the channel to pin messages.
pub const TOPIC_KEYWORD: &'static str = "Pin";

/// The characters of the topic keyword.
pub open spec fn keyword_chars() -> Seq<char> {
    seq!['P', 'i', 'n']
}

/// The channel a reaction was made in, as far as the pinning rule needs it.
#[derive(Clone, Debug)]
pub enum Channel {
    /// A private conversation between users: never eligible.
    Private,
    /// A channel of a guild, with its free-text topic if it has one.
    Guild { topic: Option<String> },
}

/// Whether `p` occurs in `s` as a run of consecutive characters.
pub open spec fn has_infix(s: Seq<char>, p: Seq<char>) -> bool {
    exists|i: int| 0 <= i && i + p.len() <= s.len() && #[trigger] s.subrange(i, i + p.len()) == p
}

/// The topic as text, an absent topic reading as empty.
pub open spec fn topic_text(topic: Option<String>) -> Seq<char> {
    match topic {
        Some(t) => t@,
        None => Seq::empty(),
    }
}

/// A topic makes its channel eligible when it contains the keyword.
pub open spec fn topic_is_eligible(topic: Option<String>) -> bool {
    has_infix(topic_text(topic), keyword_chars())
}

/// A channel is eligible when it is a guild channel with an eligible topic.
pub open spec fn channel_is_eligible(c: Channel) -> bool {
    match c {
        Channel::Private => false,
        Channel::Guild { topic } => topic_is_eligible(topic),
    }
}

/// Relies on `str::contains` with a `&str` pattern: true exactly when the
/// pattern matches a sub-slice of the string.
#[verifier::external_body]
fn str_contains(s: &str, pattern: &str) -> (r: bool)
    ensures
        r == has_infix(s@, pattern@),
{
    s.contains(pattern)
}

/// Whether a topic contains the keyword; an absent topic does not.
pub fn topic_mentions_keyword(topic: &Option<String>) -> (r: bool)
    ensures
        r == topic_is_eligible(*topic),
{
    proof {
        reveal_strlit("Pin");
        assert(TOPIC_KEYWORD@ =~= keyword_chars());
    }
    match topic {
        Some(t) => str_contains(t.as_str(), TOPIC_KEYWORD),
        None => {
            let r = str_contains("", TOPIC_KEYWORD);
            proof {
                reveal_strlit("");
                assert(""@ =~= topic_text(*topic));
            }
            r
        },
    }
}

impl Channel {
    /// Whether this is a private conversation.
    pub fn is_private(&self) -> (r: bool)
        ensures
            r == (*self is Private),
    {
        match self {
            Channel::Private => true,
            Channel::Guild { .. } => false,
        }
    }

    /// Whether reactions in this channel may pin and unpin messages.
    pub fn is_eligible(&self) -> (r: bool)
        ensures
            r == channel_is_eligible(*self),
    {
        match self {
            Channel::Private => false,
            Channel::Guild { topic } => topic_mentions_keyword(topic),
        }
    }
}

} // verus!
