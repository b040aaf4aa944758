//! The portal's rules: who may ask what, and for how long a login lasts.

use crate::auth::CreatorToken;
use crate::config::ConfigInfo;
use crate::error::Error;
use vstd::prelude::*;

verus! {

/// A creator as the portal shows it.
#[derive(Clone, Copy, Debug, PartialEq, Eq, Structural)]
pub struct Creator {
    pub id: i64,
    pub moderator: bool,
    pub lockout: bool,
    pub poster_limit: i32,
}

impl Creator {
    pub fn from_token(token: &CreatorToken) -> (creator: Self)
        ensures
            creator == (Creator {
                id: token.id,
                moderator: token.moderator,
                lockout: token.moderator,
                poster_limit: token.poster_limit,
            }),
    {
        Creator {
            id: token.id,
            moderator: token.moderator,
            lockout: token.moderator,
            poster_limit: token.poster_limit,
        }
    }
}

/// For how long a login token is good, in hours.
#[derive(Clone, Copy, Debug, PartialEq, Eq, Structural)]
pub struct TokenConfig {
    /// After this long the token is no longer taken.
    pub life_limit: i64,
    /// After this long the token is taken once more and replaced.
    pub refresh_limit: i64,
}

impl ConfigInfo for TokenConfig {
    fn field() -> (field: &'static str)
        ensures
            field@ == "authToken"@,
    {
        "authToken"
    }

    fn name() -> (name: &'static str)
        ensures
            name@ == "Config for auth token"@,
    {
        "Config for auth token"
    }
}

pub const SECONDS_PER_HOUR: i64 = 3600;

/// What becomes of a login token when it is presented.
#[derive(Clone, Copy, Debug, PartialEq, Eq, Structural)]
pub enum TokenStanding {
    /// Its life is over: it is removed and the creator is not logged in.
    Expired,
    /// It is taken, and a new one is minted in its place.
    Stale,
    /// It is taken as it is.
    Fresh,
}

impl TokenConfig {
    /// The standing at `now` of a token minted at `minting_time`, both in
    /// seconds: expired once more than the life limit has passed, stale
    /// once more than the refresh limit has, fresh until then.
    pub open spec fn standing_of(self, minting_time: i64, now: i64) -> TokenStanding {
        if minting_time + self.life_limit * SECONDS_PER_HOUR < now {
            TokenStanding::Expired
        } else if minting_time + self.refresh_limit * SECONDS_PER_HOUR < now {
            TokenStanding::Stale
        } else {
            TokenStanding::Fresh
        }
    }

    pub fn standing(&self, minting_time: i64, now: i64) -> (standing: TokenStanding)
        ensures
            standing == self.standing_of(minting_time, now),
    {
        let minted: i128 = minting_time as i128;
        let life: i128 = self.life_limit as i128 * 3600;
        let refresh: i128 = self.refresh_limit as i128 * 3600;
        if minted + life < now as i128 {
            TokenStanding::Expired
        } else if minted + refresh < now as i128 {
            TokenStanding::Stale
        } else {
            TokenStanding::Fresh
        }
    }
}

/// A login token as the durable store holds it: whose it is, and when it
/// was minted, in seconds.
#[derive(Clone, Debug, PartialEq, Eq)]
pub struct MintedToken {
    pub creator: CreatorToken,
    pub minting_time: i64,
}

/// What is done with a request once its token has been looked up.
#[derive(Debug, PartialEq, Eq)]
pub enum TokenStep {
    /// The request has no creator. Where `remove_cookie` is set the token
    /// has expired and its cookie is taken back.
    Refused { remove_cookie: bool },
    /// The token is stale: a new one is minted for this creator, and the
    /// request goes on as that says.
    Relogin { id: i64 },
    /// The request is this creator's.
    Accepted(CreatorToken),
}

/// What follows from the lookup of a request's token at `now`. A lookup
/// that failed or found nothing leaves the request without a creator; a
/// token that was found is taken by its standing.
pub fn after_lookup(found: Result<Option<MintedToken>, Error>, now: i64, config: &TokenConfig) -> (step:
    TokenStep)
    ensures
        step == match found {
            Ok(Some(token)) => match config.standing_of(token.minting_time, now) {
                TokenStanding::Expired => TokenStep::Refused { remove_cookie: true },
                TokenStanding::Stale => TokenStep::Relogin { id: token.creator.id },
                TokenStanding::Fresh => TokenStep::Accepted(token.creator),
            },
            _ => TokenStep::Refused { remove_cookie: false },
        },
{
    match found {
        Ok(Some(token)) => match config.standing(token.minting_time, now) {
            TokenStanding::Expired => TokenStep::Refused { remove_cookie: true },
            TokenStanding::Stale => TokenStep::Relogin { id: token.creator.id },
            TokenStanding::Fresh => TokenStep::Accepted(token.creator),
        },
        _ => TokenStep::Refused { remove_cookie: false },
    }
}

/// The creator of a request whose stale token was minted anew, if that
/// went well.
pub fn after_relogin(minted: Result<Option<CreatorToken>, Error>) -> (found: Option<CreatorToken>)
    ensures
        found == match minted {
            Ok(creator) => creator,
            Err(_) => None,
        },
{
    match minted {
        Ok(creator) => creator,
        Err(_) => None,
    }
}

/// A creator who is known to be a moderator.
#[derive(Clone, Debug, PartialEq, Eq)]
pub struct ModeratorToken(pub CreatorToken);

/// Lets a request through that needs a creator: the creator that the
/// request's token was found to belong to. Without one the request is
/// refused as not logged in.
pub fn creator_guard(found: Option<CreatorToken>) -> (outcome: Result<CreatorToken, (u16, Error)>)
    ensures
        match found {
            Some(creator) => outcome == Ok::<CreatorToken, (u16, Error)>(creator),
            None => outcome == Err::<CreatorToken, (u16, Error)>(
                (Error::NotLoggedIn.status(), Error::NotLoggedIn),
            ),
        },
{
    match found {
        Some(creator) => Ok(creator),
        None => Err(Error::NotLoggedIn.with_status()),
    }
}

/// Lets a request through that needs a moderator. A request without a
/// creator is refused as the creator guard refuses it, and a creator who is
/// no moderator is refused as no admin.
pub fn moderator_guard(creator: Result<CreatorToken, (u16, Error)>) -> (outcome: Result<
    ModeratorToken,
    (u16, Error),
>)
    ensures
        match creator {
            Ok(c) => if c.moderator {
                outcome == Ok::<ModeratorToken, (u16, Error)>(ModeratorToken(c))
            } else {
                outcome == Err::<ModeratorToken, (u16, Error)>(
                    (Error::UserNotAdmin.status(), Error::UserNotAdmin),
                )
            },
            Err(refusal) => outcome == Err::<ModeratorToken, (u16, Error)>(refusal),
        },
{
    match creator {
        Ok(c) => if c.moderator {
            Ok(ModeratorToken(c))
        } else {
            Err(Error::UserNotAdmin.with_status())
        },
        Err(refusal) => Err(refusal),
    }
}

/// Lets a creator change posters unless the creator is locked out.
pub fn unlocked(token: &CreatorToken) -> (outcome: Result<(), Error>)
    ensures
        outcome == if token.lockout {
            Err::<(), Error>(Error::LockedOut)
        } else {
            Ok::<(), Error>(())
        },
{
    if token.lockout {
        Err(Error::LockedOut)
    } else {
        Ok(())
    }
}

} // verus!
