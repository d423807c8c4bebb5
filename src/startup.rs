//! What the agent needs before it connects: its token and its subscriptions.
use crate::channel::has_infix;
use vstd::prelude::*;

verus! {

/// The key under which the secret store holds the bot token.
pub const TOKEN_KEY: &'static str = "DISCORD_TOKEN";

/// The report of a missing token.
pub const MISSING_TOKEN_MESSAGE: &'static str = "'DISCORD_TOKEN' was not found";

/// Why the agent could not start.
#[derive(Clone, Copy, Debug, PartialEq, Eq, Structural)]
pub enum StartupError {
    /// The secret store holds no token under `TOKEN_KEY`.
    MissingToken,
}

impl StartupError {
    /// The report of this error; it names the missing key.
    pub fn message(&self) -> (r: String)
        ensures
            r@ == MISSING_TOKEN_MESSAGE@,
            has_infix(r@, TOKEN_KEY@),
    {
        proof {
            reveal_strlit("'DISCORD_TOKEN' was not found");
            reveal_strlit("DISCORD_TOKEN");
            let m = MISSING_TOKEN_MESSAGE@;
            assert(m.subrange(1, 1 + TOKEN_KEY@.len() as int) =~= TOKEN_KEY@);
        }
        MISSING_TOKEN_MESSAGE.to_owned()
    }
}

/// Takes the token from what the secret store held under `TOKEN_KEY`; without
/// one the agent does not start, and no connection is attempted.
pub fn token_from(stored: Option<String>) -> (r: Result<String, StartupError>)
    ensures
        stored is None <==> r == Err::<String, StartupError>(StartupError::MissingToken),
        stored is Some ==> r is Ok && r->Ok_0@ == stored->Some_0@,
{
    match stored {
        Some(token) => Ok(token),
        None => Err(StartupError::MissingToken),
    }
}

/// A category of gateway events that the agent subscribes to.
#[derive(Clone, Copy, Debug, PartialEq, Eq, Structural)]
pub enum Intent {
    /// Messages posted in guild channels.
    GuildMessages,
    /// Reactions added to and removed from messages in guild channels.
    GuildMessageReactions,
}

/// The subscriptions the agent asks for: guild messages and their reactions,
/// and nothing privileged.
pub fn intents() -> (r: Vec<Intent>)
    ensures
        r@ == seq![Intent::GuildMessages, Intent::GuildMessageReactions],
{
    let r = vec![Intent::GuildMessages, Intent::GuildMessageReactions];
    proof {
        assert(r@ =~= seq![Intent::GuildMessages, Intent::GuildMessageReactions]);
    }
    r
}

} // verus!
