use imagefork::cache::{hash_token, CacheCommand, Tally};
use imagefork::error::{Error, InternalError};
use imagefork::memory::MemoryStore;
use imagefork::poster_image::{PosterImage, PosterImageKind};
use imagefork::redirect::{
    handler, unreadable, Fault, RedirectAction, RedirectConfig, RedirectEvent, RedirectHandler,
    RedirectSettings, Response, Sent, Stage, Transition,
};
use imagefork::static_image::{Asset, ImageFormat, StaticImage};

struct Posters {
    rows: Vec<(i64, bool, String)>,
    down: bool,
    selections: u32,
    lookups: u32,
}

impl Posters {
    fn new(rows: Vec<(i64, bool, &str)>) -> Self {
        Posters {
            rows: rows.into_iter().map(|(id, s, u)| (id, s, u.to_string())).collect(),
            down: false,
            selections: 0,
            lookups: 0,
        }
    }

    fn select_random_servable(&mut self) -> Result<Option<i64>, Error> {
        self.selections += 1;
        if self.down {
            return Err(connection_error());
        }
        Ok(self.rows.iter().find(|r| r.1).map(|r| r.0))
    }

    fn url_for(&mut self, id: i64) -> Result<Option<String>, Error> {
        self.lookups += 1;
        if self.down {
            return Err(connection_error());
        }
        Ok(self.rows.iter().find(|r| r.0 == id).map(|r| r.2.clone()))
    }
}

fn connection_error() -> Error {
    Error::InternalError(InternalError::Sqlx("connection refused".to_string()))
}

struct Served {
    response: Response,
    cache_commands: Vec<CacheCommand>,
    counted: Vec<Tally>,
}

fn settings(seconds: u32) -> RedirectSettings {
    RedirectSettings { redirect_token_keepalive_seconds: seconds }
}

fn serve(
    store: &mut MemoryStore,
    posters: &mut Posters,
    token: Option<&str>,
    ttl: u32,
    now: u64,
    kind: PosterImageKind,
) -> Served {
    let mut transition = match token {
        Some(token) => handler(token, settings(ttl), kind),
        None => RedirectHandler::start(None, settings(ttl), kind),
    };
    let mut cache_commands = Vec::new();
    let mut counted = Vec::new();
    loop {
        let Transition { next, action, counted: tally } = transition;
        counted.extend(tally);
        let event = match action {
            RedirectAction::Cache(command) => {
                cache_commands.push(command);
                let conn = next.conn().expect("a cache command comes from an exchange");
                let reply =
                    store.execute(&conn.key, conn.token_keepalive_seconds, command, now);
                RedirectEvent::CacheReply(Ok(reply))
            }
            RedirectAction::SelectPoster => {
                RedirectEvent::PosterSelected(posters.select_random_servable())
            }
            RedirectAction::FetchUrl(image) => {
                assert_eq!(image.kind, kind);
                RedirectEvent::UrlFetched(posters.url_for(image.poster_id))
            }
            RedirectAction::Respond(response) => {
                assert_eq!(next.stage, Stage::Responded);
                return Served { response, cache_commands, counted };
            }
        };
        transition = next.step(event);
    }
}

#[test]
fn first_request_selects_and_second_hits() {
    let mut store = MemoryStore::new();
    let mut posters = Posters::new(vec![(42, true, "https://x/42.webp")]);

    let first = serve(&mut store, &mut posters, Some("abc"), 60, 1000, PosterImageKind::Albedo);
    assert_eq!(first.response, Response::Redirect("https://x/42.webp".to_string()));
    assert_eq!(
        first.cache_commands,
        vec![CacheCommand::GetEx, CacheCommand::SetNxGet { candidate: 42 }]
    );
    assert_eq!(first.counted, vec![Tally::Update]);
    assert_eq!(posters.selections, 1);
    assert_eq!(store.peek(&hash_token("abc"), 1000), Some(42));

    let second = serve(&mut store, &mut posters, Some("abc"), 60, 1059, PosterImageKind::Albedo);
    assert_eq!(second.response, Response::Redirect("https://x/42.webp".to_string()));
    assert_eq!(second.cache_commands, vec![CacheCommand::GetEx]);
    assert_eq!(second.counted, vec![Tally::Hit]);
    assert_eq!(posters.selections, 1);
    assert_eq!(posters.lookups, 2);
}

#[test]
fn second_request_keeps_the_poster_when_another_becomes_servable() {
    let mut store = MemoryStore::new();
    let mut posters = Posters::new(vec![(42, true, "https://x/42.webp")]);
    serve(&mut store, &mut posters, Some("abc"), 60, 1000, PosterImageKind::Albedo);
    posters.rows.insert(0, (7, true, "https://x/7.webp".to_string()));
    let again = serve(&mut store, &mut posters, Some("abc"), 60, 1030, PosterImageKind::Albedo);
    assert_eq!(again.response, Response::Redirect("https://x/42.webp".to_string()));
    let other = serve(&mut store, &mut posters, Some("abd"), 60, 1030, PosterImageKind::Albedo);
    assert_eq!(other.response, Response::Redirect("https://x/7.webp".to_string()));
}

#[test]
fn request_after_the_time_to_live_selects_again() {
    let mut store = MemoryStore::new();
    let mut posters = Posters::new(vec![(42, true, "https://x/42.webp")]);
    serve(&mut store, &mut posters, Some("abc"), 60, 1000, PosterImageKind::Albedo);
    posters.rows.insert(0, (7, true, "https://x/7.webp".to_string()));
    let late = serve(&mut store, &mut posters, Some("abc"), 60, 1060, PosterImageKind::Albedo);
    assert_eq!(late.response, Response::Redirect("https://x/7.webp".to_string()));
    assert_eq!(posters.selections, 2);
    assert_eq!(late.counted, vec![Tally::Update]);
}

#[test]
fn no_servable_poster_is_the_fallback_image() {
    let mut store = MemoryStore::new();
    let mut posters = Posters::new(vec![(1, false, "https://x/1.webp")]);
    for token in ["abc", "", "another token"] {
        let served = serve(&mut store, &mut posters, Some(token), 60, 5, PosterImageKind::Albedo);
        assert_eq!(served.response, Response::Fallback(PosterImageKind::Albedo));
        assert_eq!(
            served.response.image(),
            Some(StaticImage { format: ImageFormat::Webp, data: Asset::Safe })
        );
        assert_eq!(served.counted, vec![Tally::NoneFound]);
        assert_eq!(served.cache_commands, vec![CacheCommand::GetEx]);
        assert_eq!(store.peek(&hash_token(token), 5), None);
    }
    assert_eq!(posters.selections, 3);
    assert_eq!(posters.lookups, 0);
}

#[test]
fn store_failure_is_the_error_image_and_leaves_no_entry() {
    let mut store = MemoryStore::new();
    let mut posters = Posters::new(vec![(42, true, "https://x/42.webp")]);
    posters.down = true;
    let served = serve(&mut store, &mut posters, Some("abc"), 60, 1000, PosterImageKind::Albedo);
    assert_eq!(
        served.response,
        Response::Failure(PosterImageKind::Albedo, Fault::Reported(connection_error()))
    );
    assert_eq!(
        served.response.image(),
        Some(StaticImage { format: ImageFormat::Webp, data: Asset::Error })
    );
    assert_eq!(served.counted, vec![]);
    assert_eq!(served.cache_commands, vec![CacheCommand::GetEx]);
    assert_eq!(store.peek(&hash_token("abc"), 1000), None);

    posters.down = false;
    let retry = serve(&mut store, &mut posters, Some("abc"), 60, 1001, PosterImageKind::Albedo);
    assert_eq!(retry.response, Response::Redirect("https://x/42.webp".to_string()));
}

#[test]
fn failure_of_the_url_lookup_is_the_error_image() {
    let mut store = MemoryStore::new();
    let mut posters = Posters::new(vec![(42, true, "https://x/42.webp")]);
    serve(&mut store, &mut posters, Some("abc"), 60, 1000, PosterImageKind::Normal);
    posters.down = true;
    let served = serve(&mut store, &mut posters, Some("abc"), 60, 1001, PosterImageKind::Normal);
    assert_eq!(
        served.response,
        Response::Failure(PosterImageKind::Normal, Fault::Reported(connection_error()))
    );
    assert_eq!(
        served.response.image(),
        Some(StaticImage { format: ImageFormat::Png, data: Asset::DefaultNormalPixel })
    );
}

#[test]
fn poster_deleted_after_selection_is_the_fallback_image() {
    let mut store = MemoryStore::new();
    let mut posters = Posters::new(vec![(42, true, "https://x/42.webp")]);
    serve(&mut store, &mut posters, Some("abc"), 60, 1000, PosterImageKind::Emissive);
    posters.rows.clear();
    let served = serve(&mut store, &mut posters, Some("abc"), 60, 1001, PosterImageKind::Emissive);
    assert_eq!(served.response, Response::Fallback(PosterImageKind::Emissive));
    assert_eq!(
        served.response.image(),
        Some(StaticImage { format: ImageFormat::Png, data: Asset::BlackPixel })
    );
    assert_eq!(served.counted, vec![Tally::Hit]);
}

#[test]
fn no_token_goes_past_the_cache() {
    let mut store = MemoryStore::new();
    let mut posters = Posters::new(vec![(42, true, "https://x/42.webp")]);
    for _ in 0..3 {
        let served = serve(&mut store, &mut posters, None, 60, 1000, PosterImageKind::Albedo);
        assert_eq!(served.response, Response::Redirect("https://x/42.webp".to_string()));
        assert_eq!(served.cache_commands, vec![]);
        assert_eq!(served.counted, vec![]);
    }
    assert_eq!(posters.selections, 3);
    assert_eq!(store.peek(&hash_token(""), 1000), None);
}

#[test]
fn no_token_and_no_poster_is_the_fallback_image() {
    let mut store = MemoryStore::new();
    let mut posters = Posters::new(vec![]);
    let served = serve(&mut store, &mut posters, None, 60, 1000, PosterImageKind::Albedo);
    assert_eq!(served.response, Response::Fallback(PosterImageKind::Albedo));
    posters.down = true;
    let served = serve(&mut store, &mut posters, None, 60, 1000, PosterImageKind::Albedo);
    assert_eq!(
        served.response,
        Response::Failure(PosterImageKind::Albedo, Fault::Reported(connection_error()))
    );
}

#[test]
fn no_token_starts_with_the_selector() {
    let first = RedirectHandler::start(None, settings(60), PosterImageKind::Normal);
    assert_eq!(first.action, RedirectAction::SelectPoster);
    assert_eq!(first.next.stage, Stage::Selecting);
    assert_eq!(first.next.kind, PosterImageKind::Normal);
    assert_eq!(first.counted, None);
    assert!(first.next.conn().is_none());
}

#[test]
fn token_starts_with_a_read_of_its_key() {
    let first = RedirectHandler::start(Some("abc"), settings(90), PosterImageKind::Albedo);
    assert_eq!(first.action, RedirectAction::Cache(CacheCommand::GetEx));
    let conn = first.next.conn().unwrap();
    assert_eq!(conn.key, hash_token("abc"));
    assert_eq!(conn.token_keepalive_seconds, 90);
}

#[test]
fn empty_token_is_a_token() {
    let first = RedirectHandler::start(Some(""), settings(90), PosterImageKind::Albedo);
    assert_eq!(first.action, RedirectAction::Cache(CacheCommand::GetEx));
    assert_eq!(first.next.conn().unwrap().key, hash_token(""));
}

#[test]
fn every_token_is_resolved_through_the_cache() {
    for token in ["yote", "Yote", "", "a/b", "fallback", "error"] {
        let mut store = MemoryStore::new();
        let mut posters = Posters::new(vec![(42, true, "https://x/42.webp")]);
        let first = handler(token, settings(60), PosterImageKind::Albedo);
        assert_eq!(first.action, RedirectAction::Cache(CacheCommand::GetEx));
        assert_eq!(first.next.conn().unwrap().key, hash_token(token));
        let served = serve(&mut store, &mut posters, Some(token), 60, 1000, PosterImageKind::Albedo);
        assert_eq!(served.response, Response::Redirect("https://x/42.webp".to_string()));
        assert_eq!(
            served.cache_commands,
            vec![CacheCommand::GetEx, CacheCommand::SetNxGet { candidate: 42 }]
        );
        assert_eq!(store.peek(&hash_token(token), 1000), Some(42));
        assert_eq!(posters.selections, 1);
    }
}

#[test]
fn no_token_is_set_apart_when_there_is_no_poster_or_no_store() {
    for token in ["yote", "abc"] {
        let mut store = MemoryStore::new();
        let mut posters = Posters::new(vec![]);
        let served = serve(&mut store, &mut posters, Some(token), 60, 5, PosterImageKind::Albedo);
        assert_eq!(served.response, Response::Fallback(PosterImageKind::Albedo));

        posters.down = true;
        let served = serve(&mut store, &mut posters, Some(token), 60, 5, PosterImageKind::Albedo);
        assert_eq!(
            served.response,
            Response::Failure(PosterImageKind::Albedo, Fault::Reported(connection_error()))
        );
        assert_eq!(store.peek(&hash_token(token), 5), None);

        let mut posters = Posters::new(vec![(42, true, "https://x/42.webp")]);
        serve(&mut store, &mut posters, Some(token), 60, 6, PosterImageKind::Albedo);
        posters.rows.clear();
        let served = serve(&mut store, &mut posters, Some(token), 60, 7, PosterImageKind::Albedo);
        assert_eq!(served.response, Response::Fallback(PosterImageKind::Albedo));
    }
}

#[test]
fn request_that_cannot_be_read_is_the_error_image() {
    let response = unreadable("Unable to parse image kind.".to_string());
    assert_eq!(
        response,
        Response::Failure(
            PosterImageKind::Albedo,
            Fault::Unreadable("Unable to parse image kind.".to_string())
        )
    );
    assert_eq!(
        response.image(),
        Some(StaticImage { format: ImageFormat::Webp, data: Asset::Error })
    );
    assert_eq!(
        Fault::Unreadable("bad query".to_string()).message(),
        "bad query"
    );
}

#[test]
fn cache_that_cannot_be_reached_is_the_error_image() {
    let down = Error::InternalError(InternalError::RedisPool("timed out".to_string()));
    let first = handler("abc", settings(60), PosterImageKind::Emissive);
    let next = first.next.step(RedirectEvent::CacheReply(Err(down.clone())));
    assert_eq!(
        next.action,
        RedirectAction::Respond(Response::Failure(PosterImageKind::Emissive, Fault::Reported(down)))
    );
    assert_eq!(next.next.stage, Stage::Responded);
    assert_eq!(next.counted, None);
}

#[test]
fn event_out_of_turn_is_the_error_image() {
    let first = RedirectHandler::start(None, settings(60), PosterImageKind::Albedo);
    let next = first.next.step(RedirectEvent::UrlFetched(Ok(None)));
    assert_eq!(
        next.action,
        RedirectAction::Respond(Response::Failure(PosterImageKind::Albedo, Fault::OutOfTurn))
    );
    assert_eq!(next.next.stage, Stage::Responded);
    let after = next.next.step(RedirectEvent::CacheReply(Ok(None)));
    assert_eq!(
        after.action,
        RedirectAction::Respond(Response::Failure(PosterImageKind::Albedo, Fault::OutOfTurn))
    );

    let first = RedirectHandler::start(Some("abc"), settings(60), PosterImageKind::Albedo);
    let next = first.next.step(RedirectEvent::UrlFetched(Ok(None)));
    assert_eq!(
        next.action,
        RedirectAction::Respond(Response::Failure(PosterImageKind::Albedo, Fault::OutOfTurn))
    );
    let first = RedirectHandler::start(Some("abc"), settings(60), PosterImageKind::Albedo);
    let next = first.next.step(RedirectEvent::PosterSelected(Ok(Some(1))));
    assert_eq!(
        next.action,
        RedirectAction::Respond(Response::Failure(PosterImageKind::Albedo, Fault::OutOfTurn))
    );
}

#[test]
fn known_poster_is_looked_up_in_the_kind_asked_for() {
    let first = RedirectHandler::start(None, settings(60), PosterImageKind::Emissive);
    let next = first.next.step(RedirectEvent::PosterSelected(Ok(Some(5))));
    assert_eq!(
        next.action,
        RedirectAction::FetchUrl(PosterImage { poster_id: 5, kind: PosterImageKind::Emissive })
    );
    assert_eq!(next.next.stage, Stage::Fetching);
}

#[test]
fn redirect_has_no_canned_image() {
    assert_eq!(Response::Redirect("https://x/1".to_string()).image(), None);
}

#[test]
fn responses_on_the_wire() {
    assert_eq!(
        Response::Redirect("https://x/1".to_string()).sent(),
        Sent::Redirect("https://x/1".to_string())
    );
    assert_eq!(
        Response::Fallback(PosterImageKind::Albedo).sent(),
        Sent::Image(StaticImage { format: ImageFormat::Webp, data: Asset::Safe })
    );
    assert_eq!(
        Response::Fallback(PosterImageKind::Normal).sent(),
        Sent::Image(StaticImage { format: ImageFormat::Png, data: Asset::DefaultNormalPixel })
    );
    assert_eq!(
        Response::Failure(PosterImageKind::Albedo, Fault::OutOfTurn).sent(),
        Sent::Image(StaticImage { format: ImageFormat::Webp, data: Asset::Error })
    );
    assert_eq!(
        Response::Failure(PosterImageKind::Emissive, Fault::OutOfTurn).sent(),
        Sent::Image(StaticImage { format: ImageFormat::Png, data: Asset::BlackPixel })
    );
}

#[test]
fn faults_for_the_log() {
    assert_eq!(
        Fault::Reported(connection_error()).message(),
        "Internal Error: connection refused"
    );
    assert_eq!(Fault::OutOfTurn.message(), "event out of turn");
}

#[test]
fn keepalive_minutes_become_seconds() {
    let config = |minutes| RedirectConfig {
        coherency_token_redis_url: "redis://localhost".to_string(),
        coherency_token_keepalive_minutes: minutes,
    };
    assert_eq!(config(0).settings(), Some(settings(0)));
    assert_eq!(config(1).settings(), Some(settings(60)));
    assert_eq!(config(30).settings(), Some(settings(1800)));
    assert_eq!(config(71_582_788).settings(), Some(settings(4_294_967_280)));
    assert_eq!(config(71_582_789).settings(), None);
    assert_eq!(config(u32::MAX).settings(), None);
}

#[test]
fn request_is_answered_within_four_steps_whatever_it_is_told() {
    let events = || {
        vec![
            RedirectEvent::CacheReply(Ok(None)),
            RedirectEvent::CacheReply(Ok(Some(3))),
            RedirectEvent::PosterSelected(Ok(Some(4))),
            RedirectEvent::PosterSelected(Ok(None)),
            RedirectEvent::UrlFetched(Ok(Some("https://x/4.webp".to_string()))),
            RedirectEvent::UrlFetched(Ok(None)),
            RedirectEvent::CacheReply(Err(connection_error())),
        ]
    };
    let count = events().len();
    for a in 0..count {
        for b in 0..count {
            for c in 0..count {
                for d in 0..count {
                    for token in [None, Some("abc")] {
                        let mut transition =
                            RedirectHandler::start(token, settings(60), PosterImageKind::Albedo);
                        let mut answered = false;
                        for pick in [a, b, c, d] {
                            answered |= matches!(transition.action, RedirectAction::Respond(_));
                            transition = transition.next.step(events().swap_remove(pick));
                        }
                        answered |= matches!(transition.action, RedirectAction::Respond(_));
                        assert!(answered);
                        assert_eq!(transition.next.stage, Stage::Responded);
                    }
                }
            }
        }
    }
}
