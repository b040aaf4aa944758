//! What holds of the resolution of tokens, whatever the inputs: proved of
//! the model that the exchange and the store in memory are verified
//! against.

use crate::cache::{
    resolve_step, token_key, CacheCommand, Resolution, ResolveAction, ResolveEvent, ResolvePhase,
};
use crate::error::Error;
use crate::memory::{applied, live, resolved, Entry};
use crate::poster_image::PosterImageKind;
use crate::redirect::{redirect_step, RedirectAction, RedirectEvent, RedirectHandler, Stage};
use vstd::prelude::*;

verus! {

/// Equal tokens have equal keys: the key depends on nothing but the token.
pub proof fn lemma_key_depends_on_token_alone(a: Seq<char>, b: Seq<char>)
    requires
        a == b,
    ensures
        token_key(a) == token_key(b),
{
}

/// Idempotence within the time to live. An exchange at `first_at` that
/// yields a poster, followed by one for the same token less than `ttl`
/// later, gives a hit on that same poster the second time, and the selector
/// is not asked again: over the pair it is asked at most once.
pub proof fn lemma_repeat_within_ttl_is_a_hit(
    m: Map<Seq<char>, Entry>,
    token: Seq<char>,
    ttl: u32,
    first_at: u64,
    second_at: u64,
    first_pick: Result<Option<i64>, Error>,
    second_pick: Result<Option<i64>, Error>,
)
    requires
        first_at <= second_at < first_at + ttl,
        resolved(m, token_key(token), ttl, first_at, first_pick).1.poster() is Some,
    ensures
        ({
            let first = resolved(m, token_key(token), ttl, first_at, first_pick);
            let second = resolved(first.0, token_key(token), ttl, second_at, second_pick);
            &&& second.1 == Resolution::Hit(first.1.poster()->Some_0)
            &&& !second.2
            &&& !(first.2 && second.2)
        }),
{
}

/// Expiry. Once `ttl` has run out since an exchange that yielded a poster,
/// and nothing touched the key meanwhile, the next exchange asks the
/// selector again and goes by its answer, which may be another poster.
pub proof fn lemma_lapsed_key_is_resolved_anew(
    m: Map<Seq<char>, Entry>,
    token: Seq<char>,
    ttl: u32,
    first_at: u64,
    second_at: u64,
    first_pick: Result<Option<i64>, Error>,
    second_pick: Result<Option<i64>, Error>,
)
    requires
        second_at >= first_at + ttl,
        resolved(m, token_key(token), ttl, first_at, first_pick).1.poster() is Some,
    ensures
        ({
            let first = resolved(m, token_key(token), ttl, first_at, first_pick);
            let second = resolved(first.0, token_key(token), ttl, second_at, second_pick);
            &&& second.2
            &&& second.1 == match second_pick {
                Ok(Some(id)) => Resolution::Update(id),
                Ok(None) => Resolution::NoneFound,
                Err(e) => Resolution::Failed(e),
            }
        }),
{
}

/// Absence is not cached. When the selector finds no poster, nothing is
/// written, and an exchange for the same token at that time or later asks
/// the selector again and goes by its new answer.
pub proof fn lemma_absence_is_not_cached(
    m: Map<Seq<char>, Entry>,
    token: Seq<char>,
    ttl: u32,
    first_at: u64,
    second_at: u64,
    second_pick: Result<Option<i64>, Error>,
)
    requires
        first_at <= second_at,
        resolved(m, token_key(token), ttl, first_at, Ok(None)).2,
    ensures
        ({
            let first = resolved(m, token_key(token), ttl, first_at, Ok(None));
            let second = resolved(first.0, token_key(token), ttl, second_at, second_pick);
            &&& first.1 == Resolution::NoneFound
            &&& first.0 == m
            &&& second.2
            &&& second.1 == match second_pick {
                Ok(Some(id)) => Resolution::Update(id),
                Ok(None) => Resolution::NoneFound,
                Err(e) => Resolution::Failed(e),
            }
        }),
{
}

/// Several exchanges for one key that run at the same time: the store they
/// share, what each waits for, and how each ended, if it has.
pub struct Race {
    pub store: Map<Seq<char>, Entry>,
    pub phases: Seq<ResolvePhase>,
    pub outcomes: Seq<Option<Resolution>>,
}

/// One turn in a race: which exchange moves, and when.
pub struct Turn {
    pub who: int,
    pub at: u64,
}

/// `n` exchanges that have each just been opened, on the store `m`.
pub open spec fn race_start(m: Map<Seq<char>, Entry>, n: nat) -> Race {
    Race {
        store: m,
        phases: Seq::new(n, |i: int| ResolvePhase::Lookup),
        outcomes: Seq::new(n, |i: int| None),
    }
}

/// One turn of an exchange: its pending command is carried out on the store
/// in one piece and it takes the reply, or, where it waits for the
/// selector, it takes its own pick. An exchange that is over stays as it
/// is.
pub open spec fn turn(race: Race, t: Turn, key: Seq<char>, ttl: u32, picks: Seq<i64>) -> Race {
    let (store, event) = match race.phases[t.who] {
        ResolvePhase::Lookup => {
            let (store, reply) = applied(race.store, key, ttl, CacheCommand::GetEx, t.at);
            (store, Some(ResolveEvent::CacheReply(Ok(reply))))
        },
        ResolvePhase::Populate => (
            race.store,
            Some(ResolveEvent::Populated(Ok(Some(picks[t.who])))),
        ),
        ResolvePhase::Write { candidate } => {
            let (store, reply) = applied(
                race.store,
                key,
                ttl,
                CacheCommand::SetNxGet { candidate },
                t.at,
            );
            (store, Some(ResolveEvent::CacheReply(Ok(reply))))
        },
        ResolvePhase::Finished => (race.store, None),
    };
    match event {
        None => race,
        Some(told) => {
            let (phase, action) = resolve_step(race.phases[t.who], told);
            Race {
                store,
                phases: race.phases.update(t.who, phase),
                outcomes: match action {
                    ResolveAction::Finish(outcome) => race.outcomes.update(t.who, Some(outcome)),
                    _ => race.outcomes,
                },
            }
        },
    }
}

/// The race after the turns of `schedule`, in its order.
pub open spec fn raced(
    race: Race,
    schedule: Seq<Turn>,
    key: Seq<char>,
    ttl: u32,
    picks: Seq<i64>,
) -> Race
    decreases schedule.len(),
{
    if schedule.len() == 0 {
        race
    } else {
        turn(raced(race, schedule.drop_last(), key, ttl, picks), schedule.last(), key, ttl, picks)
    }
}

/// How many turns `schedule` gives to exchange `i`.
pub open spec fn turns_of(schedule: Seq<Turn>, i: int) -> nat
    decreases schedule.len(),
{
    if schedule.len() == 0 {
        0
    } else {
        turns_of(schedule.drop_last(), i) + if schedule.last().who == i {
            1nat
        } else {
            0nat
        }
    }
}

/// Every turn is one of the `n` exchanges', and no two turns are a whole
/// time to live apart: an entry written during the race cannot lapse
/// before the race is over.
pub open spec fn concurrent(schedule: Seq<Turn>, n: nat, ttl: u32) -> bool {
    &&& forall|k: int| 0 <= k < schedule.len() ==> 0 <= (#[trigger] schedule[k]).who < n
    &&& forall|a: int, b: int|
        0 <= a < schedule.len() && 0 <= b < schedule.len() ==> (#[trigger] schedule[a]).at < (
        #[trigger] schedule[b]).at + ttl
}

/// No two exchanges have the same pick.
pub open spec fn distinct(picks: Seq<i64>) -> bool {
    forall|a: int, b: int|
        0 <= a < picks.len() && 0 <= b < picks.len() && a != b ==> picks[a] != picks[b]
}

/// Whether exchange `winner` has won the race: the key holds its pick, and
/// every exchange that is over ended with that poster.
pub open spec fn won_by(race: Race, winner: int, key: Seq<char>, picks: Seq<i64>) -> bool {
    &&& 0 <= winner < picks.len()
    &&& race.store.contains_key(key)
    &&& race.store[key].value == picks[winner]
    &&& forall|i: int|
        0 <= i < race.outcomes.len() && race.outcomes[i] is Some ==> (
        #[trigger] race.outcomes[i])->Some_0.poster() == Some(picks[winner])
}

/// The exchanges that are over agree: either none is over yet, or one of
/// them has won.
pub open spec fn converged(race: Race, key: Seq<char>, picks: Seq<i64>) -> bool {
    ||| forall|i: int| 0 <= i < race.outcomes.len() ==> race.outcomes[i] is None
    ||| exists|winner: int| won_by(race, winner, key, picks)
}

spec fn steady(
    race: Race,
    schedule: Seq<Turn>,
    key: Seq<char>,
    ttl: u32,
    picks: Seq<i64>,
) -> bool {
    &&& race.phases.len() == picks.len()
    &&& race.outcomes.len() == picks.len()
    &&& forall|i: int|
        0 <= i < picks.len() ==> (#[trigger] race.phases[i] matches ResolvePhase::Write {
            candidate,
        } ==> candidate == picks[i])
    &&& forall|i: int|
        0 <= i < picks.len() ==> (#[trigger] race.outcomes[i] is Some) == (race.phases[i]
            == ResolvePhase::Finished)
    &&& forall|i: int|
        0 <= i < picks.len() && #[trigger] race.outcomes[i] is Some ==> race.store.contains_key(
            key,
        ) && race.outcomes[i]->Some_0.poster() == Some(race.store[key].value)
    &&& race.store.contains_key(key) ==> {
        &&& race.store[key].ttl == ttl
        &&& exists|k: int|
            0 <= k < schedule.len() && race.store[key].refreshed_at == (#[trigger] schedule[k]).at
        &&& exists|w: int| 0 <= w < picks.len() && race.store[key].value == #[trigger] picks[w]
    }
}

proof fn lemma_turn_keeps_steady(
    race: Race,
    schedule: Seq<Turn>,
    at: int,
    key: Seq<char>,
    ttl: u32,
    picks: Seq<i64>,
)
    requires
        concurrent(schedule, picks.len(), ttl),
        0 <= at < schedule.len(),
        steady(race, schedule, key, ttl, picks),
    ensures
        steady(turn(race, schedule[at], key, ttl, picks), schedule, key, ttl, picks),
{
    let t = schedule[at];
    let next = turn(race, t, key, ttl, picks);
    if race.store.contains_key(key) {
        let k = choose|k: int|
            0 <= k < schedule.len() && race.store[key].refreshed_at == (#[trigger] schedule[k]).at;
        assert(schedule[at].at < schedule[k].at + ttl);
        assert(live(race.store, key, t.at));
        let w = choose|w: int| 0 <= w < picks.len() && race.store[key].value == #[trigger] picks[w];
        assert(next.store[key].value == picks[w]);
        assert(next.store[key].refreshed_at == schedule[k].at || next.store[key].refreshed_at
            == schedule[at].at);
    } else {
        assert(!live(race.store, key, t.at));
        if race.phases[t.who] is Write {
            assert(next.store[key].value == picks[t.who]);
            assert(next.store[key].refreshed_at == schedule[at].at);
        }
    }
}

proof fn lemma_raced_is_steady(
    m: Map<Seq<char>, Entry>,
    schedule: Seq<Turn>,
    upto: int,
    key: Seq<char>,
    ttl: u32,
    picks: Seq<i64>,
)
    requires
        !m.contains_key(key),
        concurrent(schedule, picks.len(), ttl),
        0 <= upto <= schedule.len(),
    ensures
        steady(
            raced(race_start(m, picks.len()), schedule.take(upto), key, ttl, picks),
            schedule,
            key,
            ttl,
            picks,
        ),
    decreases upto,
{
    if upto > 0 {
        lemma_raced_is_steady(m, schedule, upto - 1, key, ttl, picks);
        assert(schedule.take(upto).drop_last() =~= schedule.take(upto - 1));
        assert(schedule.take(upto).last() == schedule[upto - 1]);
        lemma_turn_keeps_steady(
            raced(race_start(m, picks.len()), schedule.take(upto - 1), key, ttl, picks),
            schedule,
            upto - 1,
            key,
            ttl,
            picks,
        );
    }
}

/// Race convergence. Any number of exchanges for one key that the store
/// has never seen, each with a pick of its own, taking their turns in any
/// order and all within one time to live: whenever any of them is over,
/// one of them has won, so that the key holds its pick and every exchange
/// that is over has ended with that poster. Where the picks differ from
/// one another there is exactly one winner.
pub proof fn lemma_race_converges(
    m: Map<Seq<char>, Entry>,
    token: Seq<char>,
    ttl: u32,
    picks: Seq<i64>,
    schedule: Seq<Turn>,
)
    requires
        !m.contains_key(token_key(token)),
        concurrent(schedule, picks.len(), ttl),
    ensures
        ({
            let end = raced(race_start(m, picks.len()), schedule, token_key(token), ttl, picks);
            &&& converged(end, token_key(token), picks)
            &&& distinct(picks) ==> forall|a: int, b: int|
                won_by(end, a, token_key(token), picks) && won_by(end, b, token_key(token), picks)
                    ==> a == b
        }),
{
    let key = token_key(token);
    let end = raced(race_start(m, picks.len()), schedule, key, ttl, picks);
    lemma_raced_is_steady(m, schedule, schedule.len() as int, key, ttl, picks);
    assert(schedule.take(schedule.len() as int) =~= schedule);
    if exists|i: int| 0 <= i < end.outcomes.len() && end.outcomes[i] is Some {
        let i = choose|i: int| 0 <= i < end.outcomes.len() && end.outcomes[i] is Some;
        assert(end.store.contains_key(key));
        let w = choose|w: int| 0 <= w < picks.len() && end.store[key].value == #[trigger] picks[w];
        assert(won_by(end, w, key, picks));
    }
}

/// An exchange that races with nobody is an exchange alone: three turns of
/// a single exchange at one time leave the store, and end, as one whole
/// exchange does whose selector picks that exchange's pick.
pub proof fn lemma_race_of_one_is_an_exchange_alone(
    m: Map<Seq<char>, Entry>,
    key: Seq<char>,
    ttl: u32,
    now: u64,
    pick: i64,
)
    ensures
        ({
            let t = Turn { who: 0, at: now };
            let end = raced(race_start(m, 1), seq![t, t, t], key, ttl, seq![pick]);
            let alone = resolved(m, key, ttl, now, Ok(Some(pick)));
            &&& end.store == alone.0
            &&& end.outcomes == seq![Some(alone.1)]
        }),
{
    let t = Turn { who: 0, at: now };
    let picks = seq![pick];
    let start = race_start(m, 1);
    let s0 = Seq::<Turn>::empty();
    let s1 = seq![t];
    let s2 = seq![t, t];
    let s3 = seq![t, t, t];
    assert(s1.drop_last() =~= s0);
    assert(s2.drop_last() =~= s1);
    assert(s3.drop_last() =~= s2);
    assert(raced(start, s0, key, ttl, picks) == start);
    let r1 = raced(start, s1, key, ttl, picks);
    assert(r1 == turn(start, t, key, ttl, picks));
    let r2 = raced(start, s2, key, ttl, picks);
    assert(r2 == turn(r1, t, key, ttl, picks));
    let r3 = raced(start, s3, key, ttl, picks);
    assert(r3 == turn(r2, t, key, ttl, picks));
    let alone = resolved(m, key, ttl, now, Ok(Some(pick)));
    assert(start.phases[0] == ResolvePhase::Lookup);
    if live(m, key, now) {
        assert(r1.phases[0] == ResolvePhase::Finished);
        assert(r1.outcomes =~= seq![Some(alone.1)]);
        assert(r2 == r1);
        assert(r3 == r1);
    } else {
        assert(r1.phases[0] == ResolvePhase::Populate);
        assert(r1.store == m);
        assert(r2.phases[0] == ResolvePhase::Write { candidate: pick });
        assert(r2.store == m);
        assert(r3.outcomes =~= seq![Some(alone.1)]);
    }
}

/// How far an exchange has come.
spec fn rank(phase: ResolvePhase) -> nat {
    match phase {
        ResolvePhase::Lookup => 0,
        ResolvePhase::Populate => 1,
        ResolvePhase::Write { .. } => 2,
        ResolvePhase::Finished => 3,
    }
}

proof fn lemma_turns_advance(
    m: Map<Seq<char>, Entry>,
    schedule: Seq<Turn>,
    key: Seq<char>,
    ttl: u32,
    picks: Seq<i64>,
    i: int,
)
    requires
        forall|k: int| 0 <= k < schedule.len() ==> 0 <= (#[trigger] schedule[k]).who < picks.len(),
        0 <= i < picks.len(),
    ensures
        ({
            let end = raced(race_start(m, picks.len()), schedule, key, ttl, picks);
            &&& end.phases.len() == picks.len()
            &&& end.outcomes.len() == picks.len()
            &&& end.phases[i] == ResolvePhase::Finished ==> end.outcomes[i] is Some
            &&& turns_of(schedule, i) >= 3 ==> end.phases[i] == ResolvePhase::Finished
            &&& turns_of(schedule, i) < 3 ==> rank(end.phases[i]) >= turns_of(schedule, i)
        }),
    decreases schedule.len(),
{
    if schedule.len() > 0 {
        let before = schedule.drop_last();
        assert forall|k: int| 0 <= k < before.len() implies 0 <= (#[trigger] before[k]).who
            < picks.len() by {
            assert(before[k] == schedule[k]);
        }
        lemma_turns_advance(m, before, key, ttl, picks, i);
        lemma_turns_advance(m, before, key, ttl, picks, schedule.last().who);
        assert(0 <= schedule[schedule.len() - 1].who < picks.len());
    }
}

/// Three turns end an exchange: in a race in which every exchange has had
/// three turns or more, every exchange is over.
pub proof fn lemma_three_turns_end_an_exchange(
    m: Map<Seq<char>, Entry>,
    token: Seq<char>,
    ttl: u32,
    picks: Seq<i64>,
    schedule: Seq<Turn>,
)
    requires
        forall|k: int| 0 <= k < schedule.len() ==> 0 <= (#[trigger] schedule[k]).who < picks.len(),
        forall|i: int| 0 <= i < picks.len() ==> turns_of(schedule, i) >= 3,
    ensures
        ({
            let end = raced(race_start(m, picks.len()), schedule, token_key(token), ttl, picks);
            &&& end.outcomes.len() == picks.len()
            &&& forall|i: int| 0 <= i < picks.len() ==> (#[trigger] end.outcomes[i]) is Some
        }),
{
    let end = raced(race_start(m, picks.len()), schedule, token_key(token), ttl, picks);
    lemma_race_shape(m, schedule, token_key(token), ttl, picks);
    assert forall|i: int| 0 <= i < picks.len() implies (#[trigger] end.outcomes[i]) is Some by {
        lemma_turns_advance(m, schedule, token_key(token), ttl, picks, i);
    }
}

/// A race that is over has one winner. When the exchanges for a key that
/// the store has never seen have all had their three turns, within one
/// time to live, every one of them has ended with the same poster: the
/// pick of one of them, which is what the key holds.
pub proof fn lemma_finished_race_has_one_winner(
    m: Map<Seq<char>, Entry>,
    token: Seq<char>,
    ttl: u32,
    picks: Seq<i64>,
    schedule: Seq<Turn>,
)
    requires
        picks.len() > 0,
        !m.contains_key(token_key(token)),
        concurrent(schedule, picks.len(), ttl),
        forall|i: int| 0 <= i < picks.len() ==> turns_of(schedule, i) >= 3,
    ensures
        ({
            let end = raced(race_start(m, picks.len()), schedule, token_key(token), ttl, picks);
            exists|winner: int|
                {
                    &&& 0 <= winner < picks.len()
                    &&& end.store.contains_key(token_key(token))
                    &&& end.store[token_key(token)].value == picks[winner]
                    &&& forall|i: int|
                        0 <= i < picks.len() ==> (#[trigger] end.outcomes[i]) is Some
                            && end.outcomes[i]->Some_0.poster() == Some(picks[winner])
                }
        }),
{
    let key = token_key(token);
    let end = raced(race_start(m, picks.len()), schedule, key, ttl, picks);
    lemma_race_converges(m, token, ttl, picks, schedule);
    lemma_three_turns_end_an_exchange(m, token, ttl, picks, schedule);
    assert(end.outcomes[0] is Some);
    let winner = choose|winner: int| won_by(end, winner, key, picks);
    assert(won_by(end, winner, key, picks));
    assert forall|i: int| 0 <= i < picks.len() implies (#[trigger] end.outcomes[i]) is Some
        && end.outcomes[i]->Some_0.poster() == Some(picks[winner]) by {}
}

proof fn lemma_race_shape(
    m: Map<Seq<char>, Entry>,
    schedule: Seq<Turn>,
    key: Seq<char>,
    ttl: u32,
    picks: Seq<i64>,
)
    requires
        forall|k: int| 0 <= k < schedule.len() ==> 0 <= (#[trigger] schedule[k]).who < picks.len(),
    ensures
        raced(race_start(m, picks.len()), schedule, key, ttl, picks).phases.len() == picks.len(),
        raced(race_start(m, picks.len()), schedule, key, ttl, picks).outcomes.len() == picks.len(),
    decreases schedule.len(),
{
    if schedule.len() > 0 {
        let before = schedule.drop_last();
        assert forall|k: int| 0 <= k < before.len() implies 0 <= (#[trigger] before[k]).who
            < picks.len() by {
            assert(before[k] == schedule[k]);
        }
        lemma_race_shape(m, before, key, ttl, picks);
        assert(0 <= schedule[schedule.len() - 1].who < picks.len());
    }
}

/// What the handler asks for, one action for each of `events` in turn.
pub open spec fn actions_of(handler: RedirectHandler, events: Seq<RedirectEvent>) -> Seq<
    RedirectAction,
>
    decreases events.len(),
{
    if events.len() == 0 {
        Seq::empty()
    } else {
        let transition = redirect_step(handler, events.first());
        seq![transition.action] + actions_of(transition.next, events.drop_first())
    }
}

/// The handler after it has been told `events`, one after the other.
pub open spec fn handler_after(handler: RedirectHandler, events: Seq<RedirectEvent>) -> RedirectHandler
    decreases events.len(),
{
    if events.len() == 0 {
        handler
    } else {
        handler_after(redirect_step(handler, events.first()).next, events.drop_first())
    }
}

/// How far a request has come: each step takes it further.
spec fn progress(handler: RedirectHandler) -> nat {
    match handler.stage {
        Stage::Resolving(conn) => match conn.phase {
            ResolvePhase::Lookup => 0,
            ResolvePhase::Populate => 1,
            _ => 2,
        },
        Stage::Selecting => 2,
        Stage::Fetching => 3,
        Stage::Responded => 4,
    }
}

proof fn lemma_steps_make_progress(handler: RedirectHandler, events: Seq<RedirectEvent>)
    ensures
        progress(handler_after(handler, events)) >= progress(handler),
        progress(handler) + events.len() >= 4 ==> handler_after(handler, events).stage
            == Stage::Responded,
        progress(handler) + events.len() >= 4 ==> handler.stage == Stage::Responded || exists|
            i: int,
        |
            0 <= i < actions_of(handler, events).len() && i + progress(handler) < 4
                && #[trigger] actions_of(handler, events)[i] is Respond,
    decreases events.len(),
{
    if events.len() > 0 {
        let transition = redirect_step(handler, events.first());
        let rest = events.drop_first();
        lemma_steps_make_progress(transition.next, rest);
        assert(progress(transition.next) > progress(handler) || handler.stage == Stage::Responded);
        let actions = actions_of(handler, events);
        assert(actions.len() == 1 + actions_of(transition.next, rest).len()) by {
            lemma_one_action_for_each_event(transition.next, rest);
        }
        if handler.stage != Stage::Responded && progress(handler) + events.len() >= 4 {
            if transition.next.stage == Stage::Responded {
                assert(actions[0] == transition.action);
                assert(actions[0] is Respond);
            } else {
                let i = choose|i: int|
                    0 <= i < actions_of(transition.next, rest).len() && i + progress(
                        transition.next,
                    ) < 4 && #[trigger] actions_of(transition.next, rest)[i] is Respond;
                assert(actions[i + 1] == actions_of(transition.next, rest)[i]);
                assert(actions[i + 1] is Respond);
            }
        }
    }
}

proof fn lemma_one_action_for_each_event(handler: RedirectHandler, events: Seq<RedirectEvent>)
    ensures
        actions_of(handler, events).len() == events.len(),
    decreases events.len(),
{
    if events.len() > 0 {
        lemma_one_action_for_each_event(
            redirect_step(handler, events.first()).next,
            events.drop_first(),
        );
    }
}

/// Every request is answered, and soon. Whatever a request is told, in
/// whatever order, one of the first four things it asks for is to send a
/// response, and after four steps it has responded.
pub proof fn lemma_request_is_answered_within_four_steps(
    handler: RedirectHandler,
    events: Seq<RedirectEvent>,
)
    requires
        handler.stage != Stage::Responded,
        events.len() >= 4,
    ensures
        handler_after(handler, events).stage == Stage::Responded,
        exists|i: int| 0 <= i < 4 && #[trigger] actions_of(handler, events)[i] is Respond,
{
    lemma_steps_make_progress(handler, events);
    lemma_one_action_for_each_event(handler, events);
    let i = choose|i: int|
        0 <= i < actions_of(handler, events).len() && i + progress(handler) < 4
            && #[trigger] actions_of(handler, events)[i] is Respond;
    assert(0 <= i < 4 && actions_of(handler, events)[i] is Respond);
}

/// The path without a token goes past the cache. A request taken up
/// without a token starts by asking the selector, and whatever it is told
/// from then on, it never asks anything of the cache.
pub proof fn lemma_no_token_no_cache(kind: PosterImageKind, events: Seq<RedirectEvent>)
    ensures
        forall|i: int|
            0 <= i < actions_of(RedirectHandler { kind, stage: Stage::Selecting }, events).len()
                ==> !(#[trigger] actions_of(
                RedirectHandler { kind, stage: Stage::Selecting },
                events,
            )[i] is Cache),
{
    lemma_past_the_cache(RedirectHandler { kind, stage: Stage::Selecting }, events);
}

proof fn lemma_past_the_cache(handler: RedirectHandler, events: Seq<RedirectEvent>)
    requires
        !(handler.stage is Resolving),
    ensures
        forall|i: int|
            0 <= i < actions_of(handler, events).len() ==> !(#[trigger] actions_of(
                handler,
                events,
            )[i] is Cache),
    decreases events.len(),
{
    if events.len() > 0 {
        let transition = redirect_step(handler, events.first());
        lemma_past_the_cache(transition.next, events.drop_first());
    }
}

} // verus!
