//! The redirect handler: from a request's token to a redirect or a canned
//! image.
//!
//! The handler does no I/O. It says what to ask of the cache, of the poster
//! selector and of the image resolver, is told what came back, and in the
//! end says what to send.

use crate::cache::{
    resolve_step, token_key, CacheCommand, CoherencyTokenConn, Resolution, ResolveAction,
    ResolveEvent, ResolvePhase, Tally,
};
use crate::error::Error;
use crate::poster_image::{PosterImage, PosterImageKind};
use crate::static_image::{CannedImage, StaticImage};
use vstd::prelude::*;
use vstd::string::StringExecFns;

verus! {

/// The redirect service's part of the configuration.
#[derive(Clone, Debug, PartialEq, Eq)]
pub struct RedirectConfig {
    pub coherency_token_redis_url: String,
    pub coherency_token_keepalive_minutes: u32,
}

/// What the handler needs of the configuration.
#[derive(Clone, Copy, Debug, PartialEq, Eq, Structural)]
pub struct RedirectSettings {
    pub redirect_token_keepalive_seconds: u32,
}

impl RedirectConfig {
    /// The settings for the handler, with the keepalive in seconds; none
    /// if that many seconds do not fit the setting.
    pub fn settings(&self) -> (settings: Option<RedirectSettings>)
        ensures
            match settings {
                Some(s) => s.redirect_token_keepalive_seconds
                    == self.coherency_token_keepalive_minutes * 60,
                None => self.coherency_token_keepalive_minutes * 60 > u32::MAX,
            },
    {
        match self.coherency_token_keepalive_minutes.checked_mul(60) {
            Some(seconds) => Some(RedirectSettings { redirect_token_keepalive_seconds: seconds }),
            None => None,
        }
    }
}

/// Why a request ends in the error image.
#[derive(Debug, PartialEq, Eq)]
pub enum Fault {
    /// The cache, the selector or the resolver reported this error.
    Reported(Error),
    /// The handler was told something that it had not asked for.
    OutOfTurn,
    /// The request could not be read; the text says why.
    Unreadable(String),
}

/// What is sent to the client. Never an error status: a redirect, or an
/// image served with success.
#[derive(Debug, PartialEq, Eq)]
pub enum Response {
    /// A redirect to the poster's URL.
    Redirect(String),
    /// The safe image: there is no poster, or the poster has no such image.
    Fallback(PosterImageKind),
    /// The error image; the fault is for the log, not for the client.
    Failure(PosterImageKind, Fault),
}

/// A response as it goes over the wire: a redirect to a URL, or an image
/// served with success.
#[derive(Debug, PartialEq, Eq)]
pub enum Sent {
    Redirect(String),
    Image(StaticImage),
}

/// What the handler is told.
#[derive(Debug, PartialEq, Eq)]
pub enum RedirectEvent {
    /// The cache answered a command.
    CacheReply(Result<Option<i64>, Error>),
    /// The selector picked a servable poster at random, or found none.
    PosterSelected(Result<Option<i64>, Error>),
    /// The resolver looked up the image's URL, or found none.
    UrlFetched(Result<Option<String>, Error>),
}

/// What the handler asks for next.
#[derive(Debug, PartialEq, Eq)]
pub enum RedirectAction {
    /// Send the command to the cache, on the exchange's key.
    Cache(CacheCommand),
    /// Ask the selector for a random servable poster.
    SelectPoster,
    /// Ask the resolver for the image's URL.
    FetchUrl(PosterImage),
    /// Send this, and stop.
    Respond(Response),
}

/// Where a request stands.
#[derive(Debug, PartialEq, Eq)]
pub enum Stage {
    /// The token's exchange with the cache is under way.
    Resolving(CoherencyTokenConn),
    /// No token: the selector was asked directly, past the cache.
    Selecting,
    /// The poster is known, its URL is being looked up.
    Fetching,
    /// The response has been given.
    Responded,
}

/// The handling of one request.
#[derive(Debug, PartialEq, Eq)]
pub struct RedirectHandler {
    pub kind: PosterImageKind,
    pub stage: Stage,
}

/// One step of a request: where it stands now, what to do, and what the
/// step is counted as, if it ended the exchange with the cache.
#[derive(Debug, PartialEq, Eq)]
pub struct Transition {
    pub next: RedirectHandler,
    pub action: RedirectAction,
    pub counted: Option<Tally>,
}

/// What the handler goes by once an exchange with the cache has ended.
pub open spec fn resolution_outcome(resolution: Resolution) -> Result<Option<i64>, Fault> {
    match resolution {
        Resolution::Failed(e) => Err(Fault::Reported(e)),
        Resolution::OutOfTurn => Err(Fault::OutOfTurn),
        _ => Ok(resolution.poster()),
    }
}

/// The selector's answer as the handler goes by it.
pub open spec fn selection_outcome(picked: Result<Option<i64>, Error>) -> Result<
    Option<i64>,
    Fault,
> {
    match picked {
        Ok(id) => Ok(id),
        Err(e) => Err(Fault::Reported(e)),
    }
}

/// What follows once it is known which poster to serve: its URL is looked
/// up; without a poster the safe image is sent, after a fault the error
/// image.
pub open spec fn settled(kind: PosterImageKind, outcome: Result<Option<i64>, Fault>) -> (
    Stage,
    RedirectAction,
) {
    match outcome {
        Ok(Some(id)) => (
            Stage::Fetching,
            RedirectAction::FetchUrl(PosterImage { poster_id: id, kind }),
        ),
        Ok(None) => (Stage::Responded, RedirectAction::Respond(Response::Fallback(kind))),
        Err(fault) => (
            Stage::Responded,
            RedirectAction::Respond(Response::Failure(kind, fault)),
        ),
    }
}

/// What is sent once the URL has been looked up.
pub open spec fn fetched(kind: PosterImageKind, url: Result<Option<String>, Error>) -> Response {
    match url {
        Ok(Some(url)) => Response::Redirect(url),
        Ok(None) => Response::Fallback(kind),
        Err(e) => Response::Failure(kind, Fault::Reported(e)),
    }
}

/// The event as the exchange with the cache takes it, if it is one for it.
pub open spec fn exchange_event(event: RedirectEvent) -> Option<ResolveEvent> {
    match event {
        RedirectEvent::CacheReply(reply) => Some(ResolveEvent::CacheReply(reply)),
        RedirectEvent::PosterSelected(picked) => Some(ResolveEvent::Populated(picked)),
        RedirectEvent::UrlFetched(_) => None,
    }
}

/// The handler after an event that it had not asked for.
pub open spec fn out_of_turn(kind: PosterImageKind) -> Transition {
    Transition {
        next: RedirectHandler { kind, stage: Stage::Responded },
        action: RedirectAction::Respond(Response::Failure(kind, Fault::OutOfTurn)),
        counted: None,
    }
}

/// The transitions of the handler.
pub open spec fn redirect_step(handler: RedirectHandler, event: RedirectEvent) -> Transition {
    let kind = handler.kind;
    match handler.stage {
        Stage::Resolving(conn) => match exchange_event(event) {
            Some(told) => {
                let (phase, action) = resolve_step(conn.phase, told);
                let conn = CoherencyTokenConn {
                    key: conn.key,
                    token_keepalive_seconds: conn.token_keepalive_seconds,
                    phase,
                };
                match action {
                    ResolveAction::Cache(command) => Transition {
                        next: RedirectHandler { kind, stage: Stage::Resolving(conn) },
                        action: RedirectAction::Cache(command),
                        counted: None,
                    },
                    ResolveAction::Populate => Transition {
                        next: RedirectHandler { kind, stage: Stage::Resolving(conn) },
                        action: RedirectAction::SelectPoster,
                        counted: None,
                    },
                    ResolveAction::Finish(resolution) => {
                        let (stage, action) = settled(kind, resolution_outcome(resolution));
                        Transition {
                            next: RedirectHandler { kind, stage },
                            action,
                            counted: resolution.tally(),
                        }
                    },
                }
            },
            None => out_of_turn(kind),
        },
        Stage::Selecting => match event {
            RedirectEvent::PosterSelected(picked) => {
                let (stage, action) = settled(kind, selection_outcome(picked));
                Transition { next: RedirectHandler { kind, stage }, action, counted: None }
            },
            _ => out_of_turn(kind),
        },
        Stage::Fetching => match event {
            RedirectEvent::UrlFetched(url) => Transition {
                next: RedirectHandler { kind, stage: Stage::Responded },
                action: RedirectAction::Respond(fetched(kind, url)),
                counted: None,
            },
            _ => out_of_turn(kind),
        },
        Stage::Responded => out_of_turn(kind),
    }
}

impl Fault {
    pub open spec fn rendered(self) -> Seq<char> {
        match self {
            Fault::Reported(e) => e.rendered(),
            Fault::OutOfTurn => "event out of turn"@,
            Fault::Unreadable(complaint) => complaint@,
        }
    }

    /// The fault as one line for the log.
    pub fn message(&self) -> (text: String)
        ensures
            text@ == self.rendered(),
    {
        match self {
            Fault::Reported(e) => e.message(),
            Fault::OutOfTurn => String::from_str("event out of turn"),
            Fault::Unreadable(complaint) => complaint.clone(),
        }
    }
}

impl Response {
    /// The canned image that the response is, unless it is a redirect.
    pub open spec fn canned(self) -> Option<StaticImage> {
        match self {
            Response::Redirect(_) => None,
            Response::Fallback(kind) => Some(CannedImage::fallback_spec().image_for(kind)),
            Response::Failure(kind, _) => Some(CannedImage::error_spec().image_for(kind)),
        }
    }

    /// What the response is on the wire: the safe image where there is no
    /// poster, the error image after a fault, else the redirect.
    pub open spec fn wire(self) -> Sent {
        match self {
            Response::Redirect(url) => Sent::Redirect(url),
            Response::Fallback(kind) => Sent::Image(CannedImage::fallback_spec().image_for(kind)),
            Response::Failure(kind, _) => Sent::Image(CannedImage::error_spec().image_for(kind)),
        }
    }

    pub fn sent(self) -> (sent: Sent)
        ensures
            sent == self.wire(),
    {
        match self {
            Response::Redirect(url) => Sent::Redirect(url),
            Response::Fallback(kind) => Sent::Image(CannedImage::fallback().image(kind)),
            Response::Failure(kind, _) => Sent::Image(CannedImage::error().image(kind)),
        }
    }

    pub fn image(&self) -> (image: Option<StaticImage>)
        ensures
            image == self.canned(),
    {
        match self {
            Response::Redirect(_) => None,
            Response::Fallback(kind) => Some(CannedImage::fallback().image(*kind)),
            Response::Failure(kind, _) => Some(CannedImage::error().image(*kind)),
        }
    }
}

fn settle(kind: PosterImageKind, outcome: Result<Option<i64>, Fault>) -> (next: (
    Stage,
    RedirectAction,
))
    ensures
        next == settled(kind, outcome),
{
    match outcome {
        Ok(Some(id)) => (
            Stage::Fetching,
            RedirectAction::FetchUrl(PosterImage { poster_id: id, kind }),
        ),
        Ok(None) => (Stage::Responded, RedirectAction::Respond(Response::Fallback(kind))),
        Err(fault) => (
            Stage::Responded,
            RedirectAction::Respond(Response::Failure(kind, fault)),
        ),
    }
}

fn refuse(kind: PosterImageKind) -> (transition: Transition)
    ensures
        transition == out_of_turn(kind),
{
    Transition {
        next: RedirectHandler { kind, stage: Stage::Responded },
        action: RedirectAction::Respond(Response::Failure(kind, Fault::OutOfTurn)),
        counted: None,
    }
}

impl RedirectHandler {
    /// Takes up a request. With a token, the token's key is read from the
    /// cache first. Without one the cache is left alone and the selector is
    /// asked directly.
    pub fn start(token: Option<&str>, settings: RedirectSettings, kind: PosterImageKind) -> (first:
        Transition)
        ensures
            first.next.kind == kind,
            first.counted is None,
            token is None ==> first.next.stage == Stage::Selecting && first.action
                == RedirectAction::SelectPoster,
            token is Some ==> first.action == RedirectAction::Cache(CacheCommand::GetEx)
                && first.next.stage is Resolving && first.next.stage->Resolving_0.key@
                == token_key(token->Some_0@)
                && first.next.stage->Resolving_0.token_keepalive_seconds
                == settings.redirect_token_keepalive_seconds
                && first.next.stage->Resolving_0.phase == ResolvePhase::Lookup,
    {
        match token {
            Some(token) => {
                let (conn, _first) = CoherencyTokenConn::get_or_create(
                    token,
                    settings.redirect_token_keepalive_seconds,
                );
                Transition {
                    next: RedirectHandler { kind, stage: Stage::Resolving(conn) },
                    action: RedirectAction::Cache(CacheCommand::GetEx),
                    counted: None,
                }
            },
            None => Transition {
                next: RedirectHandler { kind, stage: Stage::Selecting },
                action: RedirectAction::SelectPoster,
                counted: None,
            },
        }
    }

    /// Takes what came back and says what to do next.
    pub fn step(self, event: RedirectEvent) -> (transition: Transition)
        ensures
            transition == redirect_step(self, event),
    {
        let kind = self.kind;
        match self.stage {
            Stage::Resolving(mut conn) => {
                let told = match event {
                    RedirectEvent::CacheReply(reply) => ResolveEvent::CacheReply(reply),
                    RedirectEvent::PosterSelected(picked) => ResolveEvent::Populated(picked),
                    RedirectEvent::UrlFetched(_) => {
                        return refuse(kind);
                    },
                };
                match conn.step(told) {
                    ResolveAction::Cache(command) => Transition {
                        next: RedirectHandler { kind, stage: Stage::Resolving(conn) },
                        action: RedirectAction::Cache(command),
                        counted: None,
                    },
                    ResolveAction::Populate => Transition {
                        next: RedirectHandler { kind, stage: Stage::Resolving(conn) },
                        action: RedirectAction::SelectPoster,
                        counted: None,
                    },
                    ResolveAction::Finish(resolution) => {
                        let counted = resolution.counter();
                        let outcome = match resolution {
                            Resolution::Hit(id) => Ok(Some(id)),
                            Resolution::Update(id) => Ok(Some(id)),
                            Resolution::UpdateDiscarded(id) => Ok(Some(id)),
                            Resolution::NoneFound => Ok(None),
                            Resolution::Failed(e) => Err(Fault::Reported(e)),
                            Resolution::OutOfTurn => Err(Fault::OutOfTurn),
                        };
                        let (stage, action) = settle(kind, outcome);
                        Transition { next: RedirectHandler { kind, stage }, action, counted }
                    },
                }
            },
            Stage::Selecting => match event {
                RedirectEvent::PosterSelected(picked) => {
                    let outcome = match picked {
                        Ok(id) => Ok(id),
                        Err(e) => Err(Fault::Reported(e)),
                    };
                    let (stage, action) = settle(kind, outcome);
                    Transition { next: RedirectHandler { kind, stage }, action, counted: None }
                },
                _ => refuse(kind),
            },
            Stage::Fetching => match event {
                RedirectEvent::UrlFetched(url) => {
                    let response = match url {
                        Ok(Some(url)) => Response::Redirect(url),
                        Ok(None) => Response::Fallback(kind),
                        Err(e) => Response::Failure(kind, Fault::Reported(e)),
                    };
                    Transition {
                        next: RedirectHandler { kind, stage: Stage::Responded },
                        action: RedirectAction::Respond(response),
                        counted: None,
                    }
                },
                _ => refuse(kind),
            },
            Stage::Responded => refuse(kind),
        }
    }

    /// The exchange with the cache, while there is one: its key and time
    /// to live are what the cache commands go by.
    pub fn conn(&self) -> (conn: Option<&CoherencyTokenConn>)
        ensures
            match self.stage {
                Stage::Resolving(c) => conn == Some(&c),
                _ => conn is None,
            },
    {
        match &self.stage {
            Stage::Resolving(c) => Some(c),
            _ => None,
        }
    }
}

/// Takes up the request for `token` as the route with a token does. Every
/// token is opaque: whatever it holds, its key is read from the cache
/// first.
pub fn handler(token: &str, settings: RedirectSettings, kind: PosterImageKind) -> (first:
    Transition)
    ensures
        first.next.kind == kind,
        first.counted is None,
        first.action == RedirectAction::Cache(CacheCommand::GetEx),
        first.next.stage is Resolving,
        first.next.stage->Resolving_0.key@ == token_key(token@),
        first.next.stage->Resolving_0.token_keepalive_seconds
            == settings.redirect_token_keepalive_seconds,
        first.next.stage->Resolving_0.phase == ResolvePhase::Lookup,
{
    RedirectHandler::start(Some(token), settings, kind)
}

/// The response to a request that could not be read, such as one that asks
/// for an image kind that there is none of: the error image in the default
/// kind, with the complaint for the log. The client is sent a picture all
/// the same.
pub fn unreadable(complaint: String) -> (response: Response)
    ensures
        response == Response::Failure(PosterImageKind::Albedo, Fault::Unreadable(complaint)),
{
    Response::Failure(PosterImageKind::Albedo, Fault::Unreadable(complaint))
}

} // verus!
