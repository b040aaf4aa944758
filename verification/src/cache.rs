//! The coherency-token cache: how a token becomes a cache key, and the
//! exchange with the cache that resolves a key to one poster.
//!
//! The cache itself is a store outside this library. An exchange is a small
//! state machine: it says what to ask next, and is told what came back.

use crate::encoding::{
    base64_url_no_pad, encode_url_no_pad, is_url_safe, sha256, sha256_digest,
};
use crate::error::{Error, InternalError};
use vstd::prelude::*;
use vstd::string::StringSliceAdditionalSpecFns;

verus! {

/// The number of characters in every cache key.
pub const KEY_LEN: usize = 43;

/// The cache key of a token: the unpadded URL-safe base64 text of the
/// SHA-256 digest of the token's UTF-8 bytes.
pub open spec fn token_key(token: Seq<char>) -> Seq<char> {
    base64_url_no_pad(sha256(vstd::utf8::encode_utf8(token)))
}

/// Maps a client's token to its cache key. Any token is accepted, the empty
/// one included; the key has the same width whatever the token's length,
/// and holds nothing but characters of the URL-safe alphabet.
pub fn hash_token(token: &str) -> (key: String)
    ensures
        key@ == token_key(token@),
        key@.len() == KEY_LEN,
        forall|i: int| 0 <= i < key@.len() ==> is_url_safe(#[trigger] key@[i]),
{
    let digest = sha256_digest(token.as_bytes());
    encode_url_no_pad(digest.as_slice())
}

/// A request to the cache store. Both are single atomic operations there,
/// on the exchange's key and with its time to live.
#[derive(Clone, Copy, Debug, PartialEq, Eq, Structural)]
pub enum CacheCommand {
    /// Read the key's value and, if there is one, restart its time to live.
    GetEx,
    /// Set the key to `candidate` only if it has no value, and report the
    /// value it had before, if any.
    SetNxGet { candidate: i64 },
}

/// What an exchange is waiting for.
#[derive(Clone, Copy, Debug, PartialEq, Eq, Structural)]
pub enum ResolvePhase {
    /// The reply to the first read.
    Lookup,
    /// The poster that the selector picks.
    Populate,
    /// The reply to the conditional write of `candidate`.
    Write { candidate: i64 },
    /// Nothing: the exchange is over.
    Finished,
}

/// What the exchange is told.
#[derive(Debug, PartialEq, Eq)]
pub enum ResolveEvent {
    /// The cache answered: the value it holds for the key, if any.
    CacheReply(Result<Option<i64>, Error>),
    /// The selector answered: the poster it picked, if there is any.
    Populated(Result<Option<i64>, Error>),
}

/// How an exchange ended.
#[derive(Debug, PartialEq, Eq)]
pub enum Resolution {
    /// The key had a value.
    Hit(i64),
    /// The key had none, and now holds the poster that was picked.
    Update(i64),
    /// The key had none at first, but another exchange set it before this
    /// one could: the value is the other's.
    UpdateDiscarded(i64),
    /// The key had no value and there is no poster to pick. Nothing was
    /// written.
    NoneFound,
    /// The cache or the selector failed.
    Failed(Error),
    /// An event arrived that the exchange was not waiting for.
    OutOfTurn,
}

/// The outcomes that are counted, each under its own label.
#[derive(Clone, Copy, Debug, PartialEq, Eq, Structural)]
pub enum Tally {
    Hit,
    Update,
    UpdateDiscarded,
    NoneFound,
}

/// What the exchange asks for next.
#[derive(Debug, PartialEq, Eq)]
pub enum ResolveAction {
    /// Send the command to the cache and report its reply.
    Cache(CacheCommand),
    /// Ask the selector for a poster and report its answer.
    Populate,
    /// Nothing more: this is the outcome.
    Finish(Resolution),
}

/// The transitions of an exchange: from what it waits for and what it is
/// told, to what it waits for next and what it asks for.
pub open spec fn resolve_step(phase: ResolvePhase, event: ResolveEvent) -> (
    ResolvePhase,
    ResolveAction,
) {
    match (phase, event) {
        (ResolvePhase::Lookup, ResolveEvent::CacheReply(Ok(Some(id)))) => (
            ResolvePhase::Finished,
            ResolveAction::Finish(Resolution::Hit(id)),
        ),
        (ResolvePhase::Lookup, ResolveEvent::CacheReply(Ok(None))) => (
            ResolvePhase::Populate,
            ResolveAction::Populate,
        ),
        (ResolvePhase::Populate, ResolveEvent::Populated(Ok(Some(id)))) => (
            ResolvePhase::Write { candidate: id },
            ResolveAction::Cache(CacheCommand::SetNxGet { candidate: id }),
        ),
        (ResolvePhase::Populate, ResolveEvent::Populated(Ok(None))) => (
            ResolvePhase::Finished,
            ResolveAction::Finish(Resolution::NoneFound),
        ),
        (ResolvePhase::Write { candidate }, ResolveEvent::CacheReply(Ok(Some(prior)))) => (
            ResolvePhase::Finished,
            ResolveAction::Finish(Resolution::UpdateDiscarded(prior)),
        ),
        (ResolvePhase::Write { candidate }, ResolveEvent::CacheReply(Ok(None))) => (
            ResolvePhase::Finished,
            ResolveAction::Finish(Resolution::Update(candidate)),
        ),
        (ResolvePhase::Lookup, ResolveEvent::CacheReply(Err(e))) => (
            ResolvePhase::Finished,
            ResolveAction::Finish(Resolution::Failed(e)),
        ),
        (ResolvePhase::Populate, ResolveEvent::Populated(Err(e))) => (
            ResolvePhase::Finished,
            ResolveAction::Finish(Resolution::Failed(e)),
        ),
        (ResolvePhase::Write { candidate }, ResolveEvent::CacheReply(Err(e))) => (
            ResolvePhase::Finished,
            ResolveAction::Finish(Resolution::Failed(e)),
        ),
        _ => (ResolvePhase::Finished, ResolveAction::Finish(Resolution::OutOfTurn)),
    }
}

impl CacheCommand {
    /// The command's name in the store's protocol.
    pub open spec fn verb_text(self) -> Seq<char> {
        match self {
            CacheCommand::GetEx => "GETEX"@,
            CacheCommand::SetNxGet { .. } => "SET"@,
        }
    }

    /// The words that stand between the command's operands and the time to
    /// live.
    pub open spec fn option_texts(self) -> Seq<Seq<char>> {
        match self {
            CacheCommand::GetEx => seq!["EX"@],
            CacheCommand::SetNxGet { .. } => seq!["NX"@, "GET"@, "EX"@],
        }
    }

    pub fn verb(&self) -> (name: &'static str)
        ensures
            name@ == self.verb_text(),
    {
        match self {
            CacheCommand::GetEx => "GETEX",
            CacheCommand::SetNxGet { .. } => "SET",
        }
    }

    /// The value operand: the poster to write, for a write.
    pub fn value(&self) -> (value: Option<i64>)
        ensures
            value == match *self {
                CacheCommand::GetEx => None,
                CacheCommand::SetNxGet { candidate } => Some(candidate),
            },
    {
        match self {
            CacheCommand::GetEx => None,
            CacheCommand::SetNxGet { candidate } => Some(*candidate),
        }
    }

    pub fn options(&self) -> (words: Vec<&'static str>)
        ensures
            words@.len() == self.option_texts().len(),
            forall|i: int| 0 <= i < words@.len() ==> (#[trigger] words@[i])@ == self.option_texts()[i],
    {
        let mut words: Vec<&'static str> = Vec::new();
        match self {
            CacheCommand::GetEx => {
                words.push("EX");
            },
            CacheCommand::SetNxGet { .. } => {
                words.push("NX");
                words.push("GET");
                words.push("EX");
            },
        }
        words
    }
}

impl Tally {
    pub open spec fn label_text(self) -> Seq<char> {
        match self {
            Tally::Hit => "hit"@,
            Tally::Update => "update"@,
            Tally::UpdateDiscarded => "update_discarded"@,
            Tally::NoneFound => "none_found"@,
        }
    }

    /// The label that the count goes under.
    pub fn label(&self) -> (text: &'static str)
        ensures
            text@ == self.label_text(),
    {
        match self {
            Tally::Hit => "hit",
            Tally::Update => "update",
            Tally::UpdateDiscarded => "update_discarded",
            Tally::NoneFound => "none_found",
        }
    }
}

impl Resolution {
    /// The poster that the exchange settled on, if it settled on one.
    pub open spec fn poster(self) -> Option<i64> {
        match self {
            Resolution::Hit(id) => Some(id),
            Resolution::Update(id) => Some(id),
            Resolution::UpdateDiscarded(id) => Some(id),
            _ => None,
        }
    }

    /// Whether the exchange ended in a failure.
    pub open spec fn failed(self) -> bool {
        self is Failed || self is OutOfTurn
    }

    /// What the outcome is counted as; a failure is not counted here.
    pub open spec fn tally(self) -> Option<Tally> {
        match self {
            Resolution::Hit(_) => Some(Tally::Hit),
            Resolution::Update(_) => Some(Tally::Update),
            Resolution::UpdateDiscarded(_) => Some(Tally::UpdateDiscarded),
            Resolution::NoneFound => Some(Tally::NoneFound),
            _ => None,
        }
    }

    pub fn counter(&self) -> (counted: Option<Tally>)
        ensures
            counted == self.tally(),
    {
        match self {
            Resolution::Hit(_) => Some(Tally::Hit),
            Resolution::Update(_) => Some(Tally::Update),
            Resolution::UpdateDiscarded(_) => Some(Tally::UpdateDiscarded),
            Resolution::NoneFound => Some(Tally::NoneFound),
            _ => None,
        }
    }

    /// The outcome as the three-way result that callers branch on: a
    /// poster, no poster, or the failure.
    pub fn result(self) -> (result: Result<Option<i64>, Error>)
        ensures
            !self.failed() ==> result == Ok::<Option<i64>, Error>(self.poster()),
            self is Failed ==> result == Err::<Option<i64>, Error>(self->Failed_0),
            self is OutOfTurn ==> result is Err && result->Err_0 is InternalError
                && result->Err_0->InternalError_0 is SystemError
                && result->Err_0->InternalError_0.detail()
                == "Internal error [coherency token]: event out of turn"@,
    {
        match self {
            Resolution::Hit(id) => Ok(Some(id)),
            Resolution::Update(id) => Ok(Some(id)),
            Resolution::UpdateDiscarded(id) => Ok(Some(id)),
            Resolution::NoneFound => Ok(None),
            Resolution::Failed(e) => Err(e),
            Resolution::OutOfTurn => {
                proof {
                    reveal_strlit("Internal error [coherency token]: event out of turn");
                    reveal_strlit("Internal error [");
                    reveal_strlit("coherency token");
                    reveal_strlit("]: ");
                    reveal_strlit("event out of turn");
                }
                let inner = InternalError::system_error("coherency token", "event out of turn");
                assert(inner.detail() =~= "Internal error [coherency token]: event out of turn"@);
                Err(Error::InternalError(inner))
            },
        }
    }
}

/// One request's exchange with the coherency-token cache.
#[derive(Debug, PartialEq, Eq)]
pub struct CoherencyTokenConn {
    pub key: String,
    pub token_keepalive_seconds: u32,
    pub phase: ResolvePhase,
}

impl CoherencyTokenConn {
    /// Opens the exchange for `token`: the first thing to do is to read the
    /// token's key from the cache.
    pub fn get_or_create(token: &str, token_keepalive_seconds: u32) -> (opened: (
        Self,
        ResolveAction,
    ))
        ensures
            opened.0.key@ == token_key(token@),
            opened.0.token_keepalive_seconds == token_keepalive_seconds,
            opened.0.phase == ResolvePhase::Lookup,
            opened.1 == ResolveAction::Cache(CacheCommand::GetEx),
    {
        let conn = CoherencyTokenConn {
            key: hash_token(token),
            token_keepalive_seconds,
            phase: ResolvePhase::Lookup,
        };
        (conn, ResolveAction::Cache(CacheCommand::GetEx))
    }

    /// Takes what came back and says what to do next. The key and the time
    /// to live stay as they are.
    pub fn step(&mut self, event: ResolveEvent) -> (action: ResolveAction)
        ensures
            (final(self).phase, action) == resolve_step(old(self).phase, event),
            final(self).key == old(self).key,
            final(self).token_keepalive_seconds == old(self).token_keepalive_seconds,
    {
        let (phase, action) = match (self.phase, event) {
            (ResolvePhase::Lookup, ResolveEvent::CacheReply(reply)) => match reply {
                Ok(Some(id)) => (ResolvePhase::Finished, ResolveAction::Finish(Resolution::Hit(id))),
                Ok(None) => (ResolvePhase::Populate, ResolveAction::Populate),
                Err(e) => (ResolvePhase::Finished, ResolveAction::Finish(Resolution::Failed(e))),
            },
            (ResolvePhase::Populate, ResolveEvent::Populated(picked)) => match picked {
                Ok(Some(id)) => (
                    ResolvePhase::Write { candidate: id },
                    ResolveAction::Cache(CacheCommand::SetNxGet { candidate: id }),
                ),
                Ok(None) => (
                    ResolvePhase::Finished,
                    ResolveAction::Finish(Resolution::NoneFound),
                ),
                Err(e) => (ResolvePhase::Finished, ResolveAction::Finish(Resolution::Failed(e))),
            },
            (ResolvePhase::Write { candidate }, ResolveEvent::CacheReply(reply)) => {
                let outcome = match reply {
                    Ok(Some(prior)) => Resolution::UpdateDiscarded(prior),
                    Ok(None) => Resolution::Update(candidate),
                    Err(e) => Resolution::Failed(e),
                };
                (ResolvePhase::Finished, ResolveAction::Finish(outcome))
            },
            _ => (ResolvePhase::Finished, ResolveAction::Finish(Resolution::OutOfTurn)),
        };
        self.phase = phase;
        action
    }

    /// Whether the exchange is over.
    pub fn is_finished(&self) -> (over: bool)
        ensures
            over == (self.phase == ResolvePhase::Finished),
    {
        match self.phase {
            ResolvePhase::Finished => true,
            _ => false,
        }
    }
}

} // verus!
