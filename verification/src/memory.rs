//! A model of the cache store, and a store in memory that follows it.
//!
//! The store maps a key to a poster and lets each entry lapse once its time
//! to live has run out since it was last written or read. Time is a count
//! of seconds that the caller supplies.

use crate::cache::{
    token_key, CacheCommand, CoherencyTokenConn, Resolution, ResolveAction, ResolveEvent,
};
use crate::text::same_text;
use crate::error::Error;
use vstd::prelude::*;

verus! {

/// What the store holds for one key.
#[derive(Clone, Copy, Debug, PartialEq, Eq, Structural)]
pub struct Entry {
    pub value: i64,
    /// When the entry was last written or read.
    pub refreshed_at: u64,
    /// How long the entry lasts from then on.
    pub ttl: u32,
}

impl Entry {
    /// Whether the entry still counts at `now`.
    pub open spec fn live_at(self, now: u64) -> bool {
        now < self.refreshed_at + self.ttl
    }

    pub fn is_live(&self, now: u64) -> (live: bool)
        ensures
            live == self.live_at(now),
    {
        now < self.refreshed_at || now - self.refreshed_at < self.ttl as u64
    }
}

/// Whether the store has a value for `key` at `now`.
pub open spec fn live(m: Map<Seq<char>, Entry>, key: Seq<char>, now: u64) -> bool {
    m.contains_key(key) && m[key].live_at(now)
}

/// The value that the store has for `key` at `now`, if any.
pub open spec fn value_at(m: Map<Seq<char>, Entry>, key: Seq<char>, now: u64) -> Option<i64> {
    if live(m, key, now) {
        Some(m[key].value)
    } else {
        None
    }
}

/// The store after a read at `now` that restarts the time to live: an entry
/// that counts lasts `ttl` from now on, and nothing else changes.
pub open spec fn after_get_ex(m: Map<Seq<char>, Entry>, key: Seq<char>, ttl: u32, now: u64) -> Map<
    Seq<char>,
    Entry,
> {
    if live(m, key, now) {
        m.insert(key, Entry { value: m[key].value, refreshed_at: now, ttl })
    } else {
        m
    }
}

/// The store after a conditional write at `now`: the key takes `value` for
/// `ttl` only if it has no value; one that it has stays untouched.
pub open spec fn after_set_nx(
    m: Map<Seq<char>, Entry>,
    key: Seq<char>,
    value: i64,
    ttl: u32,
    now: u64,
) -> Map<Seq<char>, Entry> {
    if live(m, key, now) {
        m
    } else {
        m.insert(key, Entry { value, refreshed_at: now, ttl })
    }
}

/// The store after `command`, and the reply: for either command the value
/// that the key had before.
pub open spec fn applied(
    m: Map<Seq<char>, Entry>,
    key: Seq<char>,
    ttl: u32,
    command: CacheCommand,
    now: u64,
) -> (Map<Seq<char>, Entry>, Option<i64>) {
    match command {
        CacheCommand::GetEx => (after_get_ex(m, key, ttl, now), value_at(m, key, now)),
        CacheCommand::SetNxGet { candidate } => (
            after_set_nx(m, key, candidate, ttl, now),
            value_at(m, key, now),
        ),
    }
}

/// One whole exchange against a store that nobody else touches meanwhile:
/// the store afterwards, the outcome, and whether the selector was asked.
/// A key with a value is a hit, and the selector is not asked. Otherwise
/// the selector's answer `picked` decides: a poster is written and
/// returned; no poster, or a failure, leaves the store as it was.
pub open spec fn resolved(
    m: Map<Seq<char>, Entry>,
    key: Seq<char>,
    ttl: u32,
    now: u64,
    picked: Result<Option<i64>, Error>,
) -> (Map<Seq<char>, Entry>, Resolution, bool) {
    if live(m, key, now) {
        (after_get_ex(m, key, ttl, now), Resolution::Hit(m[key].value), false)
    } else {
        match picked {
            Ok(Some(id)) => (
                m.insert(key, Entry { value: id, refreshed_at: now, ttl }),
                Resolution::Update(id),
                true,
            ),
            Ok(None) => (m, Resolution::NoneFound, true),
            Err(e) => (m, Resolution::Failed(e), true),
        }
    }
}

struct Slot {
    key: String,
    entry: Entry,
}

spec fn slots_map(slots: Seq<Slot>) -> Map<Seq<char>, Entry>
    decreases slots.len(),
{
    if slots.len() == 0 {
        Map::empty()
    } else {
        slots_map(slots.drop_last()).insert(slots.last().key@, slots.last().entry)
    }
}

spec fn distinct_keys(slots: Seq<Slot>) -> bool {
    forall|i: int, j: int|
        0 <= i < slots.len() && 0 <= j < slots.len() && i != j ==> slots[i].key@ != slots[j].key@
}

proof fn lemma_slots_map_domain(slots: Seq<Slot>)
    ensures
        forall|k: Seq<char>| #[trigger]
            slots_map(slots).contains_key(k) <==> exists|i: int|
                0 <= i < slots.len() && #[trigger] slots[i].key@ == k,
    decreases slots.len(),
{
    if slots.len() > 0 {
        let front = slots.drop_last();
        lemma_slots_map_domain(front);
        assert forall|k: Seq<char>| #[trigger]
            slots_map(slots).contains_key(k) implies exists|i: int|
            0 <= i < slots.len() && #[trigger] slots[i].key@ == k by {
            if k == slots.last().key@ {
                assert(slots[slots.len() - 1].key@ == k);
            } else {
                assert(slots_map(front).contains_key(k));
                let i = choose|i: int| 0 <= i < front.len() && #[trigger] front[i].key@ == k;
                assert(slots[i].key@ == k);
            }
        }
        assert forall|k: Seq<char>|
            (exists|i: int|
                0 <= i < slots.len() && #[trigger] slots[i].key@ == k) implies #[trigger] slots_map(
            slots,
        ).contains_key(k) by {
            let i = choose|i: int| 0 <= i < slots.len() && #[trigger] slots[i].key@ == k;
            if i < slots.len() - 1 {
                assert(front[i].key@ == k);
            }
        }
    }
}

proof fn lemma_front_keeps_distinct_keys(slots: Seq<Slot>)
    requires
        distinct_keys(slots),
        slots.len() > 0,
    ensures
        distinct_keys(slots.drop_last()),
{
    let front = slots.drop_last();
    assert forall|a: int, b: int|
        0 <= a < front.len() && 0 <= b < front.len() && a != b implies front[a].key@
        != front[b].key@ by {
        assert(front[a] == slots[a] && front[b] == slots[b]);
    }
}

proof fn lemma_slots_map_lookup(slots: Seq<Slot>, i: int)
    requires
        distinct_keys(slots),
        0 <= i < slots.len(),
    ensures
        slots_map(slots).contains_key(slots[i].key@),
        slots_map(slots)[slots[i].key@] == slots[i].entry,
    decreases slots.len(),
{
    if i < slots.len() - 1 {
        let front = slots.drop_last();
        lemma_front_keeps_distinct_keys(slots);
        lemma_slots_map_lookup(front, i);
        assert(front[i] == slots[i]);
        assert(slots[i].key@ != slots[slots.len() - 1].key@);
    }
}

proof fn lemma_slots_map_update(slots: Seq<Slot>, i: int, slot: Slot)
    requires
        distinct_keys(slots),
        0 <= i < slots.len(),
        slot.key@ == slots[i].key@,
    ensures
        distinct_keys(slots.update(i, slot)),
        slots_map(slots.update(i, slot)) =~= slots_map(slots).insert(slot.key@, slot.entry),
    decreases slots.len(),
{
    let changed = slots.update(i, slot);
    assert(distinct_keys(changed)) by {
        assert forall|a: int, b: int|
            0 <= a < changed.len() && 0 <= b < changed.len() && a != b implies changed[a].key@
            != changed[b].key@ by {
            assert(changed[a].key@ == slots[a].key@);
            assert(changed[b].key@ == slots[b].key@);
        }
    }
    let front = slots.drop_last();
    if i == slots.len() - 1 {
        assert(changed.drop_last() =~= front);
    } else {
        lemma_front_keeps_distinct_keys(slots);
        lemma_slots_map_update(front, i, slot);
        assert(changed.drop_last() =~= front.update(i, slot));
        assert(changed.last() == slots.last());
        assert(slots.last().key@ != slot.key@) by {
            assert(slots[slots.len() - 1].key@ != slots[i].key@);
        }
    }
}

/// A cache store held in memory that follows the model: what an exchange
/// is run against where there is no cache server. Entries that have lapsed
/// are kept until their key is written again.
pub struct MemoryStore {
    slots: Vec<Slot>,
}

impl View for MemoryStore {
    type V = Map<Seq<char>, Entry>;

    closed spec fn view(&self) -> Map<Seq<char>, Entry> {
        slots_map(self.slots@)
    }
}

impl MemoryStore {
    #[verifier::type_invariant]
    spec fn keys_are_distinct(self) -> bool {
        distinct_keys(self.slots@)
    }

    /// A store that holds nothing.
    pub fn new() -> (store: Self)
        ensures
            store@ == Map::<Seq<char>, Entry>::empty(),
    {
        MemoryStore { slots: Vec::new() }
    }

    fn position(&self, key: &str) -> (found: Option<usize>)
        ensures
            match found {
                Some(i) => i < self.slots@.len() && self.slots@[i as int].key@ == key@
                    && self@.contains_key(key@) && self@[key@] == self.slots@[i as int].entry,
                None => !self@.contains_key(key@),
            },
    {
        proof {
            use_type_invariant(self);
            lemma_slots_map_domain(self.slots@);
        }
        let mut i: usize = 0;
        while i < self.slots.len()
            invariant
                i <= self.slots@.len(),
                forall|j: int| 0 <= j < i ==> self.slots@[j].key@ != key@,
            decreases self.slots@.len() - i,
        {
            if same_text(self.slots[i].key.as_str(), key) {
                proof {
                    use_type_invariant(self);
                    lemma_slots_map_lookup(self.slots@, i as int);
                }
                return Some(i);
            }
            i += 1;
        }
        None
    }

    /// The value held for `key` at `now`, if any. The store does not
    /// change: the entry's time to live runs on.
    pub fn peek(&self, key: &str, now: u64) -> (value: Option<i64>)
        ensures
            value == value_at(self@, key@, now),
    {
        match self.position(key) {
            Some(i) => {
                let entry = self.slots[i].entry;
                if entry.is_live(now) {
                    Some(entry.value)
                } else {
                    None
                }
            },
            None => None,
        }
    }

    fn put(&mut self, key: &str, entry: Entry)
        ensures
            final(self)@ == old(self)@.insert(key@, entry),
    {
        let found = self.position(key);
        proof {
            use_type_invariant(&*self);
            lemma_slots_map_domain(self.slots@);
        }
        let mut slots: Vec<Slot> = Vec::new();
        core::mem::swap(&mut self.slots, &mut slots);
        match found {
            Some(i) => {
                let slot = Slot { key: slots[i].key.clone(), entry };
                proof {
                    lemma_slots_map_update(slots@, i as int, slot);
                }
                slots.set(i, slot);
            },
            None => {
                let slot = Slot { key: key.to_owned(), entry };
                proof {
                    assert(slots@.push(slot).drop_last() =~= slots@);
                    assert(distinct_keys(slots@.push(slot)));
                }
                slots.push(slot);
            },
        }
        self.slots = slots;
    }

    /// Reads `key` at `now` and, if it has a value, restarts its time to
    /// live at `ttl`.
    pub fn get_ex(&mut self, key: &str, ttl: u32, now: u64) -> (value: Option<i64>)
        ensures
            value == value_at(old(self)@, key@, now),
            final(self)@ == after_get_ex(old(self)@, key@, ttl, now),
    {
        match self.peek(key, now) {
            Some(value) => {
                self.put(key, Entry { value, refreshed_at: now, ttl });
                Some(value)
            },
            None => None,
        }
    }

    /// Sets `key` to `value` for `ttl` if it has no value at `now`; returns
    /// the value that it had before, if any.
    pub fn set_nx_get(&mut self, key: &str, value: i64, ttl: u32, now: u64) -> (prior: Option<i64>)
        ensures
            prior == value_at(old(self)@, key@, now),
            final(self)@ == after_set_nx(old(self)@, key@, value, ttl, now),
    {
        match self.peek(key, now) {
            Some(prior) => Some(prior),
            None => {
                self.put(key, Entry { value, refreshed_at: now, ttl });
                None
            },
        }
    }

    /// Carries out `command` on `key` at `now`.
    pub fn execute(&mut self, key: &str, ttl: u32, command: CacheCommand, now: u64) -> (reply:
        Option<i64>)
        ensures
            (final(self)@, reply) == applied(old(self)@, key@, ttl, command, now),
    {
        match command {
            CacheCommand::GetEx => self.get_ex(key, ttl, now),
            CacheCommand::SetNxGet { candidate } => self.set_nx_get(key, candidate, ttl, now),
        }
    }

    /// Runs one whole exchange for `token` at `now`, with `picked` as the
    /// selector's answer should it be asked. Returns the outcome and
    /// whether the selector was asked.
    pub fn resolve(
        &mut self,
        token: &str,
        ttl: u32,
        now: u64,
        picked: Result<Option<i64>, Error>,
    ) -> (outcome: (Resolution, bool))
        ensures
            (final(self)@, outcome.0, outcome.1) == resolved(
                old(self)@,
                token_key(token@),
                ttl,
                now,
                picked,
            ),
    {
        let (mut conn, _first) = CoherencyTokenConn::get_or_create(token, ttl);
        let found = self.get_ex(conn.key.as_str(), ttl, now);
        match conn.step(ResolveEvent::CacheReply(Ok(found))) {
            ResolveAction::Finish(outcome) => (outcome, false),
            _ => match conn.step(ResolveEvent::Populated(picked)) {
                ResolveAction::Cache(command) => {
                    let prior = self.execute(conn.key.as_str(), ttl, command, now);
                    match conn.step(ResolveEvent::CacheReply(Ok(prior))) {
                        ResolveAction::Finish(outcome) => (outcome, true),
                        _ => (Resolution::OutOfTurn, true),
                    }
                },
                ResolveAction::Finish(outcome) => (outcome, true),
                ResolveAction::Populate => (Resolution::OutOfTurn, true),
            },
        }
    }
}

} // verus!
