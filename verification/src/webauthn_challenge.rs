//! In-memory storage of WebAuthn registration challenges. Entries are kept
//! per token together with the user they were issued to and the time they
//! were stored, expire five minutes later, and are handed out at most once.

use vstd::prelude::*;
use crate::text::str_eq;

verus! {

broadcast use vstd::string::group_string_axioms;

/// How long an entry stays valid, in milliseconds (five minutes).
pub const TTL_MS: u64 = 300_000;

/// An entry stored at `created` (milliseconds) is still valid at `now`: less
/// than five minutes have passed (a clock reading before `created` counts as
/// no time passed).
pub open spec fn fresh(created: u64, now: u64) -> bool {
    now < created + TTL_MS
}

struct Slot<V> {
    token: String,
    value: V,
    user_id: u128,
    created_at: u64,
}

spec fn slot_val<V>(s: Slot<V>) -> (V, u128, u64) {
    (s.value, s.user_id, s.created_at)
}

spec fn slot_map<V>(s: Seq<Slot<V>>) -> Map<Seq<char>, (V, u128, u64)>
    decreases s.len(),
{
    if s.len() == 0 {
        Map::empty()
    } else {
        slot_map(s.drop_last()).insert(s.last().token@, slot_val(s.last()))
    }
}

spec fn tokens_unique<V>(s: Seq<Slot<V>>) -> bool {
    forall|i: int, j: int|
        0 <= i < s.len() && 0 <= j < s.len() && i != j ==> s[i].token@ != s[j].token@
}

proof fn lemma_slot_map_dom<V>(s: Seq<Slot<V>>, k: Seq<char>)
    ensures
        slot_map(s).dom().contains(k) <==> exists|i: int| 0 <= i < s.len() && s[i].token@ == k,
    decreases s.len(),
{
    if s.len() > 0 {
        let p = s.drop_last();
        lemma_slot_map_dom(p, k);
        if exists|i: int| 0 <= i < p.len() && p[i].token@ == k {
            let i = choose|i: int| 0 <= i < p.len() && p[i].token@ == k;
            assert(s[i] == p[i]);
        }
        if exists|i: int| 0 <= i < s.len() && s[i].token@ == k {
            let i = choose|i: int| 0 <= i < s.len() && s[i].token@ == k;
            if i < s.len() - 1 {
                assert(p[i] == s[i]);
            }
        }
    }
}

proof fn lemma_slot_map_val<V>(s: Seq<Slot<V>>, i: int)
    requires
        tokens_unique(s),
        0 <= i < s.len(),
    ensures
        slot_map(s).dom().contains(s[i].token@),
        slot_map(s)[s[i].token@] == slot_val(s[i]),
    decreases s.len(),
{
    let p = s.drop_last();
    if i < s.len() - 1 {
        assert(p[i] == s[i]);
        assert forall|a: int, b: int|
            0 <= a < p.len() && 0 <= b < p.len() && a != b implies p[a].token@ != p[b].token@ by {
            assert(p[a] == s[a] && p[b] == s[b]);
        }
        lemma_slot_map_val(p, i);
        assert(s[i].token@ != s.last().token@);
    }
}

fn find_slot<V>(slots: &Vec<Slot<V>>, token: &str) -> (r: Option<usize>)
    ensures
        match r {
            Some(i) => i < slots@.len() && slots@[i as int].token@ == token@,
            None => forall|i: int| 0 <= i < slots@.len() ==> slots@[i].token@ != token@,
        },
{
    let n = slots.len();
    for i in 0..n
        invariant
            n == slots@.len(),
            forall|j: int| 0 <= j < i ==> slots@[j].token@ != token@,
    {
        if str_eq(slots[i].token.as_str(), token) {
            return Some(i);
        }
    }
    None
}

/// Map from token to (value, user id, time stored) with expiry.
pub struct ExpiringMap<V> {
    slots: Vec<Slot<V>>,
}

impl<V> ExpiringMap<V> {
    #[verifier::type_invariant]
    spec fn inv(self) -> bool {
        tokens_unique(self.slots@)
    }

    /// The stored entries: token to (value, user id, time stored).
    pub closed spec fn view(self) -> Map<Seq<char>, (V, u128, u64)> {
        slot_map(self.slots@)
    }

    /// The entries of `m` still valid at `now`.
    pub open spec fn live(m: Map<Seq<char>, (V, u128, u64)>, now: u64) -> Map<
        Seq<char>,
        (V, u128, u64),
    > {
        m.restrict(Set::new(|k: Seq<char>| m.dom().contains(k) && fresh(m[k].2, now)))
    }

    /// An empty map.
    pub fn new() -> (r: Self)
        ensures
            r.view() == Map::<Seq<char>, (V, u128, u64)>::empty(),
    {
        ExpiringMap { slots: Vec::new() }
    }

    /// Stores `value` for `token`, issued to `user_id` at `now`, replacing
    /// any entry of the same token.
    pub fn insert(&mut self, token: String, value: V, user_id: u128, now: u64)
        ensures
            final(self).view() == old(self).view().insert(token@, (value, user_id, now)),
    {
        proof {
            use_type_invariant(&*self);
        }
        let ghost old_s = self.slots@;
        let slot = Slot { token, value, user_id, created_at: now };
        let ghost k = slot.token@;
        let ghost val = slot_val(slot);
        match find_slot(&self.slots, slot.token.as_str()) {
            Some(i) => {
                let mut slots = Vec::new();
                std::mem::swap(&mut slots, &mut self.slots);
                slots.set(i, slot);
                let ghost s = slots@;
                assert(s == old_s.update(i as int, slot));
                assert forall|a: int, b: int|
                    0 <= a < s.len() && 0 <= b < s.len() && a != b implies s[a].token@
                    != s[b].token@ by {
                    if a != i && b != i {
                        assert(s[a] == old_s[a] && s[b] == old_s[b]);
                    } else if a == i {
                        assert(s[b] == old_s[b]);
                        assert(old_s[i as int].token@ == k);
                    } else {
                        assert(s[a] == old_s[a]);
                        assert(old_s[i as int].token@ == k);
                    }
                }
                proof {
                    assert forall|q: Seq<char>|
                        #![trigger slot_map(s).dom().contains(q)]
                        slot_map(s).dom().contains(q) <==> slot_map(old_s).insert(k, val).dom().contains(q) by {
                        lemma_slot_map_dom(s, q);
                        lemma_slot_map_dom(old_s, q);
                        if q == k {
                            assert(s[i as int].token@ == q);
                        } else {
                            if exists|j: int| 0 <= j < old_s.len() && old_s[j].token@ == q {
                                let j = choose|j: int| 0 <= j < old_s.len() && old_s[j].token@ == q;
                                assert(j != i);
                                assert(s[j] == old_s[j]);
                            }
                            if exists|j: int| 0 <= j < s.len() && s[j].token@ == q {
                                let j = choose|j: int| 0 <= j < s.len() && s[j].token@ == q;
                                assert(j != i);
                                assert(s[j] == old_s[j]);
                            }
                        }
                    }
                    assert forall|q: Seq<char>| #[trigger]
                        slot_map(s).dom().contains(q) implies slot_map(s)[q] == slot_map(
                            old_s,
                        ).insert(k, val)[q] by {
                        lemma_slot_map_dom(s, q);
                        let j = choose|j: int| 0 <= j < s.len() && s[j].token@ == q;
                        lemma_slot_map_val(s, j);
                        if j != i {
                            assert(s[j] == old_s[j]);
                            lemma_slot_map_val(old_s, j);
                            assert(q != k);
                        }
                    }
                    assert(slot_map(s) =~= slot_map(old_s).insert(k, val));
                }
                self.slots = slots;
            },
            None => {
                let mut slots = Vec::new();
                std::mem::swap(&mut slots, &mut self.slots);
                slots.push(slot);
                let ghost s = slots@;
                assert(s.drop_last() == old_s);
                assert forall|a: int, b: int|
                    0 <= a < s.len() && 0 <= b < s.len() && a != b implies s[a].token@
                    != s[b].token@ by {
                    if a < old_s.len() && b < old_s.len() {
                        assert(s[a] == old_s[a] && s[b] == old_s[b]);
                    } else if a < old_s.len() {
                        assert(s[a] == old_s[a]);
                    } else {
                        assert(s[b] == old_s[b]);
                    }
                }
                self.slots = slots;
            },
        }
    }

    /// Drops the entries no longer valid at `now`, then hands out and
    /// removes the entry of `token` when it was issued to `user_id`. An
    /// entry of another user stays stored.
    pub fn take_live(&mut self, token: &str, user_id: u128, now: u64) -> (r: Option<V>)
        ensures
            ({
                let live = Self::live(old(self).view(), now);
                let hit = live.dom().contains(token@) && live[token@].1 == user_id;
                &&& hit ==> r == Some(live[token@].0) && final(self).view() == live.remove(token@)
                &&& !hit ==> r is None && final(self).view() == live
            }),
    {
        proof {
            use_type_invariant(&*self);
        }
        let ghost old_s = self.slots@;
        let ghost old_m = slot_map(old_s);
        let ghost live = Self::live(old_m, now);
        let mut slots = Vec::new();
        std::mem::swap(&mut slots, &mut self.slots);
        let mut kept: Vec<Slot<V>> = Vec::new();
        let ghost mut popped: int = 0;
        while slots.len() > 0
            invariant
                old_s.len() == slots@.len() + popped,
                0 <= popped,
                slots@ == old_s.take(slots@.len() as int),
                tokens_unique(old_s),
                tokens_unique(kept@),
                forall|i: int|
                    0 <= i < kept@.len() ==> exists|j: int|
                        slots@.len() <= j < old_s.len() && #[trigger] kept@[i] == old_s[j],
                forall|j: int|
                    slots@.len() <= j < old_s.len() && fresh(#[trigger] old_s[j].created_at, now)
                        ==> exists|i: int| 0 <= i < kept@.len() && kept@[i] == old_s[j],
                forall|i: int| 0 <= i < kept@.len() ==> fresh(#[trigger] kept@[i].created_at, now),
            decreases slots@.len(),
        {
            let ghost before = slots@;
            let s = slots.pop().unwrap();
            proof {
                popped = popped + 1;
                assert(slots@ == old_s.take(slots@.len() as int));
                assert(s == old_s[slots@.len() as int]);
            }
            if now < s.created_at || now - s.created_at < TTL_MS {
                let ghost kb = kept@;
                proof {
                    assert forall|i: int| 0 <= i < kb.len() implies kb[i].token@ != s.token@ by {
                        let j = choose|j: int| slots@.len() + 1 <= j < old_s.len() && kb[i] == old_s[j];
                        assert(j != slots@.len());
                    }
                }
                kept.push(s);
                proof {
                    let kn = kept@;
                    assert forall|a: int, b: int|
                        0 <= a < kn.len() && 0 <= b < kn.len() && a != b implies kn[a].token@
                        != kn[b].token@ by {
                        if a < kb.len() && b < kb.len() {
                            assert(kn[a] == kb[a] && kn[b] == kb[b]);
                        } else if a < kb.len() {
                            assert(kn[a] == kb[a]);
                        } else {
                            assert(kn[b] == kb[b]);
                        }
                    }
                    assert forall|i: int| 0 <= i < kn.len() implies exists|j: int|
                        slots@.len() <= j < old_s.len() && #[trigger] kn[i] == old_s[j] by {
                        if i < kb.len() {
                            assert(kn[i] == kb[i]);
                            let j = choose|j: int| slots@.len() + 1 <= j < old_s.len() && kb[i] == old_s[j];
                            assert(kn[i] == old_s[j]);
                        } else {
                            assert(kn[i] == old_s[slots@.len() as int]);
                        }
                    }
                    assert forall|j: int|
                        slots@.len() <= j < old_s.len() && fresh(#[trigger] old_s[j].created_at, now)
                        implies exists|i: int| 0 <= i < kn.len() && kn[i] == old_s[j] by {
                        if j == slots@.len() {
                            assert(kn[kb.len() as int] == old_s[j]);
                        } else {
                            let i = choose|i: int| 0 <= i < kb.len() && kb[i] == old_s[j];
                            assert(kn[i] == kb[i]);
                        }
                    }
                    assert forall|i: int| 0 <= i < kn.len() implies fresh(#[trigger] kn[i].created_at, now) by {
                        if i < kb.len() {
                            assert(kn[i] == kb[i]);
                        }
                    }
                }
            } else {
                proof {
                    assert forall|j: int|
                        slots@.len() <= j < old_s.len() && fresh(#[trigger] old_s[j].created_at, now)
                        implies exists|i: int| 0 <= i < kept@.len() && kept@[i] == old_s[j] by {
                        assert(j != slots@.len());
                    }
                }
            }
        }
        let ghost ks = kept@;
        proof {
            assert(old_s.take(0) =~= Seq::<Slot<V>>::empty());
            assert forall|q: Seq<char>|
                #![trigger slot_map(ks).dom().contains(q)]
                slot_map(ks).dom().contains(q) <==> live.dom().contains(q) by {
                lemma_slot_map_dom(ks, q);
                lemma_slot_map_dom(old_s, q);
                if slot_map(ks).dom().contains(q) {
                    let i = choose|i: int| 0 <= i < ks.len() && ks[i].token@ == q;
                    let j = choose|j: int| 0 <= j < old_s.len() && #[trigger] ks[i] == old_s[j];
                    lemma_slot_map_val(old_s, j);
                    assert(fresh(ks[i].created_at, now));
                }
                if live.dom().contains(q) {
                    let j = choose|j: int| 0 <= j < old_s.len() && old_s[j].token@ == q;
                    lemma_slot_map_val(old_s, j);
                    assert(fresh(old_s[j].created_at, now));
                    let i = choose|i: int| 0 <= i < ks.len() && ks[i] == old_s[j];
                    assert(ks[i].token@ == q);
                }
            }
            assert forall|q: Seq<char>| #[trigger]
                slot_map(ks).dom().contains(q) implies slot_map(ks)[q] == live[q] by {
                lemma_slot_map_dom(ks, q);
                let i = choose|i: int| 0 <= i < ks.len() && ks[i].token@ == q;
                let j = choose|j: int| 0 <= j < old_s.len() && #[trigger] ks[i] == old_s[j];
                lemma_slot_map_val(ks, i);
                lemma_slot_map_val(old_s, j);
            }
            assert(slot_map(ks) =~= live);
        }
        let found = find_slot(&kept, token);
        let result = match found {
            Some(i) => {
                proof {
                    lemma_slot_map_val(ks, i as int);
                }
                if kept[i].user_id == user_id {
                    let s = kept.remove(i);
                    let ghost rest = kept@;
                    proof {
                        assert(rest == ks.remove(i as int));
                        assert forall|a: int, b: int|
                            0 <= a < rest.len() && 0 <= b < rest.len() && a != b implies rest[a].token@
                            != rest[b].token@ by {
                            let a2 = if a < i { a } else { a + 1 };
                            let b2 = if b < i { b } else { b + 1 };
                            assert(rest[a] == ks[a2] && rest[b] == ks[b2]);
                        }
                        assert forall|q: Seq<char>|
                            #![trigger slot_map(rest).dom().contains(q)]
                            slot_map(rest).dom().contains(q) <==> live.remove(token@).dom().contains(q) by {
                            lemma_slot_map_dom(rest, q);
                            lemma_slot_map_dom(ks, q);
                            if slot_map(rest).dom().contains(q) {
                                let a = choose|a: int| 0 <= a < rest.len() && rest[a].token@ == q;
                                let a2 = if a < i { a } else { a + 1 };
                                assert(rest[a] == ks[a2]);
                                assert(a2 != i);
                            }
                            if live.remove(token@).dom().contains(q) {
                                let a = choose|a: int| 0 <= a < ks.len() && ks[a].token@ == q;
                                assert(a != i);
                                let a1 = if a < i { a } else { a - 1 };
                                assert(rest[a1] == ks[a]);
                            }
                        }
                        assert forall|q: Seq<char>| #[trigger]
                            slot_map(rest).dom().contains(q) implies slot_map(rest)[q] == live.remove(token@)[q] by {
                            lemma_slot_map_dom(rest, q);
                            let a = choose|a: int| 0 <= a < rest.len() && rest[a].token@ == q;
                            let a2 = if a < i { a } else { a + 1 };
                            assert(rest[a] == ks[a2]);
                            lemma_slot_map_val(rest, a);
                            lemma_slot_map_val(ks, a2);
                        }
                        assert(slot_map(rest) =~= live.remove(token@));
                    }
                    Some(s.value)
                } else {
                    None
                }
            },
            None => {
                proof {
                    lemma_slot_map_dom(ks, token@);
                }
                None
            },
        };
        self.slots = kept;
        result
    }
}

/// What a challenge entry holds besides its token.
pub struct Challenge {
    pub challenge: String,
}

/// In-memory storage of WebAuthn challenges and of passkey registration
/// states (of type `R`) awaiting completion. Every entry expires five
/// minutes after it was stored and is handed out at most once, and only to
/// the user it was stored for.
pub struct ChallengeStore<R> {
    challenges: ExpiringMap<String>,
    registration_states: ExpiringMap<R>,
}

impl<R> ChallengeStore<R> {
    /// The stored challenges: token to (challenge, user id, time stored).
    pub closed spec fn challenges_view(self) -> Map<Seq<char>, (String, u128, u64)> {
        self.challenges.view()
    }

    /// The stored registration states: token to (state, user id, time stored).
    pub closed spec fn states_view(self) -> Map<Seq<char>, (R, u128, u64)> {
        self.registration_states.view()
    }

    /// An empty store.
    pub fn new() -> (r: Self)
        ensures
            r.challenges_view() == Map::<Seq<char>, (String, u128, u64)>::empty(),
            r.states_view() == Map::<Seq<char>, (R, u128, u64)>::empty(),
    {
        ChallengeStore { challenges: ExpiringMap::new(), registration_states: ExpiringMap::new() }
    }

    /// Stores `challenge` under `token` for `user_id`, at time `now` (ms).
    pub fn store_challenge(&mut self, token: String, challenge: String, user_id: u128, now: u64)
        ensures
            final(self).challenges_view() == old(self).challenges_view().insert(
                token@,
                (challenge, user_id, now),
            ),
            final(self).states_view() == old(self).states_view(),
    {
        self.challenges.insert(token, challenge, user_id, now);
    }

    /// Drops expired challenges, then hands out and removes the challenge of
    /// `token` when it was stored for `user_id` less than five minutes ago.
    pub fn get_challenge(&mut self, token: &str, user_id: u128, now: u64) -> (r: Option<String>)
        ensures
            ({
                let live = ExpiringMap::<String>::live(old(self).challenges_view(), now);
                let hit = live.dom().contains(token@) && live[token@].1 == user_id;
                &&& hit ==> r == Some(live[token@].0) && final(self).challenges_view()
                    == live.remove(token@)
                &&& !hit ==> r is None && final(self).challenges_view() == live
            }),
            final(self).states_view() == old(self).states_view(),
    {
        self.challenges.take_live(token, user_id, now)
    }

    /// Stores a passkey registration state under `token` for `user_id`.
    pub fn store_registration_state(&mut self, token: String, reg_state: R, user_id: u128, now: u64)
        ensures
            final(self).states_view() == old(self).states_view().insert(
                token@,
                (reg_state, user_id, now),
            ),
            final(self).challenges_view() == old(self).challenges_view(),
    {
        self.registration_states.insert(token, reg_state, user_id, now);
    }

    /// Drops expired registration states, then hands out and removes the
    /// state of `token` when it was stored for `user_id` less than five
    /// minutes ago.
    pub fn get_registration_state(&mut self, token: &str, user_id: u128, now: u64) -> (r: Option<R>)
        ensures
            ({
                let live = ExpiringMap::<R>::live(old(self).states_view(), now);
                let hit = live.dom().contains(token@) && live[token@].1 == user_id;
                &&& hit ==> r == Some(live[token@].0) && final(self).states_view() == live.remove(
                    token@,
                )
                &&& !hit ==> r is None && final(self).states_view() == live
            }),
            final(self).challenges_view() == old(self).challenges_view(),
    {
        self.registration_states.take_live(token, user_id, now)
    }
}

/// A value stored at `t_store` and asked for at `t_take`, less than five
/// minutes later, by the user it was stored for, is handed out unchanged.
pub proof fn law_take_returns_stored<V>(
    m: Map<Seq<char>, (V, u128, u64)>,
    token: Seq<char>,
    value: V,
    user_id: u128,
    t_store: u64,
    t_take: u64,
)
    requires
        fresh(t_store, t_take),
    ensures
        ({
            let live = ExpiringMap::<V>::live(m.insert(token, (value, user_id, t_store)), t_take);
            live.dom().contains(token) && live[token].1 == user_id && live[token].0 == value
        }),
{
}

/// Once handed out, an entry is gone: a second request for the same token
/// finds nothing, at any later time.
pub proof fn law_take_is_one_time<V>(
    m: Map<Seq<char>, (V, u128, u64)>,
    token: Seq<char>,
    t_take: u64,
    t_again: u64,
)
    ensures
        !ExpiringMap::<V>::live(ExpiringMap::<V>::live(m, t_take).remove(token), t_again).dom().contains(
            token,
        ),
{
}

/// An entry is never handed out five minutes or more after it was stored.
pub proof fn law_expired_not_returned<V>(
    m: Map<Seq<char>, (V, u128, u64)>,
    token: Seq<char>,
    value: V,
    user_id: u128,
    t_store: u64,
    t_take: u64,
)
    requires
        !fresh(t_store, t_take),
    ensures
        !ExpiringMap::<V>::live(m.insert(token, (value, user_id, t_store)), t_take).dom().contains(
            token,
        ),
{
}

/// Asking with another user's id hands nothing out and leaves a still
/// valid entry in place.
pub proof fn law_other_user_keeps_entry<V>(
    m: Map<Seq<char>, (V, u128, u64)>,
    token: Seq<char>,
    value: V,
    owner: u128,
    other: u128,
    t_store: u64,
    t_take: u64,
)
    requires
        owner != other,
        fresh(t_store, t_take),
    ensures
        ({
            let live = ExpiringMap::<V>::live(m.insert(token, (value, owner, t_store)), t_take);
            live.dom().contains(token) && live[token].1 != other && live[token] == (
                value,
                owner,
                t_store,
            )
        }),
{
}

} // verus!
