//! Reaction emoji, as the platform reports them.
use vstd::prelude::*;

verus! {

/// The glyph whose reaction pins a message: U+1F4CC PUSHPIN.
pub const PIN_GLYPH: &'static str = "\u{1F4CC}";

/// The glyph added to a message when pinning or unpinning it failed:
/// U+274C CROSS MARK.
pub const CROSS_MARK_GLYPH: &'static str = "\u{274C}";

/// The characters of the pushpin glyph.
pub open spec fn pin_chars() -> Seq<char> {
    seq!['\u{1F4CC}']
}

/// The characters of the cross-mark glyph.
pub open spec fn cross_mark_chars() -> Seq<char> {
    seq!['\u{274C}']
}

/// An emoji attached to a message: either a standard unicode glyph or a
/// custom emoji uploaded to a guild.
#[derive(Clone, Debug)]
pub enum Emoji {
    Unicode(String),
    Custom { animated: bool, id: u64, name: Option<String> },
}

/// An emoji is the trigger exactly when it is the unicode pushpin glyph; a
/// custom emoji never is, whatever it is named or looks like.
pub open spec fn is_pin_emoji(e: Emoji) -> bool {
    match e {
        Emoji::Unicode(s) => s@ == pin_chars(),
        Emoji::Custom { .. } => false,
    }
}

impl Emoji {
    /// Whether this is the unicode emoji written by `other`.
    pub fn unicode_eq(&self, other: &str) -> (r: bool)
        ensures
            r == (self is Unicode && self->Unicode_0@ == other@),
    {
        match self {
            Emoji::Unicode(s) => {
                let o: String = other.to_owned();
                *s == o
            },
            Emoji::Custom { .. } => false,
        }
    }

    /// Whether this emoji is the pushpin that triggers pinning.
    pub fn is_pin(&self) -> (r: bool)
        ensures
            r == is_pin_emoji(*self),
    {
        proof {
            reveal_strlit("\u{1F4CC}");
            assert(PIN_GLYPH@ =~= pin_chars());
        }
        self.unicode_eq(PIN_GLYPH)
    }

    /// The cross-mark emoji that flags a failed pin or unpin.
    pub fn cross_mark() -> (r: Emoji)
        ensures
            r is Unicode && r->Unicode_0@ == cross_mark_chars(),
    {
        proof {
            reveal_strlit("\u{274C}");
        }
        Emoji::Unicode(CROSS_MARK_GLYPH.to_owned())
    }
}

} // verus!
