//! A verified core for a gateway session protocol client: the frame codec for
//! the JSON envelope, the session state machine, the heartbeat scheduler, the
//! reconnect supervisor's decisions, and the dispatch router. Transport and
//! timers live outside; this crate owns every decision between them.
use vstd::prelude::*;

pub mod codec;
pub mod events;
pub mod heartbeat;
pub mod resolve;
pub mod router;
pub mod session;
pub mod supervisor;
pub mod types;

use crate::types::users::User;

verus! {

/// A connection-resolution failure: the bootstrap call did not yield a
/// gateway URL.
#[derive(Clone, Copy, PartialEq, Eq, Structural, Debug)]
pub struct DiscordErr;

/// One bot process's identity: the credential and the cached self-user,
/// supplied once at construction and read-only thereafter.
#[derive(Clone, Debug)]
pub struct Bot {
    token: String,
    user: User,
}

impl Bot {
    /// The identity's token.
    pub closed spec fn spec_token(&self) -> Seq<char> {
        self.token@
    }

    /// The cached self-user.
    pub closed spec fn spec_user(&self) -> &User {
        &self.user
    }

    /// Bind an identity: the token and the cached self-user.
    pub fn new(token: String, user: User) -> (r: Bot)
        ensures
            r.spec_token() == token@,
            *r.spec_user() == user,
    {
        Bot { token, user }
    }

    /// The credential for the bootstrap call's authorization header.
    pub fn get_token(&self) -> (r: &str)
        ensures
            r@ == self.spec_token(),
    {
        self.token.as_str()
    }

    /// The cached self-user descriptor.
    pub fn self_user(&self) -> (r: &User)
        ensures
            r == self.spec_user(),
    {
        &self.user
    }
}

} // verus!
