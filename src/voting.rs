//! First-to-ahead-by-k plurality voting over candidate answers.
//!
//! Candidates are grouped by a normalized key; after each arrival the group
//! of the newcomer wins as soon as its count leads every other group by at
//! least the margin. Without such a lead the group with the highest count
//! wins, the earliest in arrival order among equals.
use vstd::prelude::*;
use crate::text::{lower_of, trim_of, lowercase, trim};

verus! {

/// The character sequences of a list of strings.
pub open spec fn views(v: Seq<String>) -> Seq<Seq<char>> {
    v.map_values(|s: String| s@)
}

/// The character sequence inside an optional string.
pub open spec fn opt_view(o: Option<String>) -> Option<Seq<char>> {
    match o {
        Some(s) => Some(s@),
        None => None,
    }
}

/// `t` without one final period, if it ends with one.
pub open spec fn drop_period(t: Seq<char>) -> Seq<char> {
    if t.len() > 0 && t.last() == '.' {
        t.drop_last()
    } else {
        t
    }
}

/// The grouping key of a candidate: trimmed, case-folded, one final period dropped.
pub open spec fn norm_key(s: Seq<char>) -> Seq<char> {
    drop_period(lower_of(trim_of(s)))
}

/// The grouping keys of a list of candidates.
pub open spec fn norm_keys(cs: Seq<Seq<char>>) -> Seq<Seq<char>> {
    cs.map_values(|c: Seq<char>| norm_key(c))
}

/// How many entries of `ks` equal `key`.
pub open spec fn count_in(ks: Seq<Seq<char>>, key: Seq<char>) -> nat
    decreases ks.len(),
{
    if ks.len() == 0 {
        0
    } else {
        count_in(ks.drop_last(), key) + if ks.last() == key {
            1nat
        } else {
            0nat
        }
    }
}

/// The highest count in `ks` of a key found among the first `upto` entries
/// that differs from `key` (zero when there is none).
pub open spec fn max_other(ks: Seq<Seq<char>>, upto: int, key: Seq<char>) -> nat
    decreases upto,
{
    if upto <= 0 {
        0
    } else {
        let prev = max_other(ks, upto - 1, key);
        let c = if ks[upto - 1] != key {
            count_in(ks, ks[upto - 1])
        } else {
            0
        };
        if c > prev {
            c
        } else {
            prev
        }
    }
}

/// The last arrival's group leads every other group by at least `k`.
pub open spec fn margin_reached(ks: Seq<Seq<char>>, k: nat) -> bool {
    ks.len() > 0 && count_in(ks, ks.last()) >= max_other(ks, ks.len() as int, ks.last()) + k
}

/// The earliest position among the first `upto` whose group has the highest count in `ks`.
pub open spec fn leader(ks: Seq<Seq<char>>, upto: int) -> int
    decreases upto,
{
    if upto <= 1 {
        0
    } else {
        let b = leader(ks, upto - 1);
        if count_in(ks, ks[upto - 1]) > count_in(ks, ks[b]) {
            upto - 1
        } else {
            b
        }
    }
}

/// The outcome of voting once the arrivals before position `i` decided nothing.
pub open spec fn vote_from(
    cands: Seq<Seq<char>>,
    keys: Seq<Seq<char>>,
    k: nat,
    i: int,
) -> Option<Seq<char>>
    decreases keys.len() - i,
{
    if i >= keys.len() {
        if keys.len() == 0 {
            None
        } else {
            Some(cands[leader(keys, keys.len() as int)])
        }
    } else if i >= 0 && margin_reached(keys.take(i + 1), k) {
        Some(cands[i])
    } else if i < 0 {
        None
    } else {
        vote_from(cands, keys, k, i + 1)
    }
}

/// The winner of margin-`k` voting over `cands`, grouped by `keys`.
pub open spec fn vote_spec(cands: Seq<Seq<char>>, keys: Seq<Seq<char>>, k: nat) -> Option<
    Seq<char>,
> {
    vote_from(cands, keys, k, 0)
}

pub proof fn lemma_count_push(ks: Seq<Seq<char>>, x: Seq<char>, y: Seq<char>)
    ensures
        count_in(ks.push(x), y) == count_in(ks, y) + if x == y {
            1nat
        } else {
            0nat
        },
{
    assert(ks.push(x).drop_last() == ks);
}

pub proof fn lemma_count_le_len(ks: Seq<Seq<char>>, y: Seq<char>)
    ensures
        count_in(ks, y) <= ks.len(),
    decreases ks.len(),
{
    if ks.len() > 0 {
        lemma_count_le_len(ks.drop_last(), y);
    }
}

pub proof fn lemma_leader_range(ks: Seq<Seq<char>>, upto: int)
    requires
        upto >= 1,
    ensures
        0 <= leader(ks, upto) < upto,
    decreases upto,
{
    if upto > 1 {
        lemma_leader_range(ks, upto - 1);
    }
}

proof fn lemma_vote_from_member(cands: Seq<Seq<char>>, keys: Seq<Seq<char>>, k: nat, i: int)
    requires
        cands.len() == keys.len(),
        0 <= i <= keys.len(),
    ensures
        vote_from(cands, keys, k, i) is None <==> cands.len() == 0,
        vote_from(cands, keys, k, i) is Some ==> exists|j: int|
            0 <= j < cands.len() && cands[j] == vote_from(cands, keys, k, i)->0,
    decreases keys.len() - i,
{
    if i >= keys.len() {
        if keys.len() > 0 {
            lemma_leader_range(keys, keys.len() as int);
            let j = leader(keys, keys.len() as int);
            assert(cands[j] == vote_from(cands, keys, k, i)->0);
        }
    } else if margin_reached(keys.take(i + 1), k) {
        assert(cands[i] == vote_from(cands, keys, k, i)->0);
    } else {
        lemma_vote_from_member(cands, keys, k, i + 1);
    }
}

/// Voting yields no winner exactly for an empty list of candidates, and
/// otherwise a winner that is one of the candidates as it was given.
pub proof fn lemma_vote_member(cands: Seq<Seq<char>>, keys: Seq<Seq<char>>, k: nat)
    requires
        cands.len() == keys.len(),
    ensures
        vote_spec(cands, keys, k) is None <==> cands.len() == 0,
        vote_spec(cands, keys, k) is Some ==> exists|j: int|
            0 <= j < cands.len() && cands[j] == vote_spec(cands, keys, k)->0,
{
    lemma_vote_from_member(cands, keys, k, 0);
}

/// The grouping key of a candidate text.
pub fn normalize(s: &str) -> (r: String)
    ensures
        r@ == norm_key(s@),
{
    let t = trim(s);
    let l = lowercase(t);
    let n = l.as_str().unicode_len();
    if n > 0 && l.as_str().get_char(n - 1) == '.' {
        let cut = l.as_str().substring_char(0, n - 1);
        assert(cut@ =~= l@.drop_last());
        cut.to_owned()
    } else {
        l
    }
}

/// Running per-group counts over the candidates seen so far, in arrival order.
pub(crate) struct Tally {
    keys: Vec<String>,
    reps: Vec<String>,
    counts: Vec<usize>,
}

impl Tally {
    /// The grouping keys received, in arrival order.
    pub closed spec fn key_seq(&self) -> Seq<Seq<char>> {
        views(self.keys@)
    }

    /// The candidate texts received, in arrival order.
    pub closed spec fn rep_seq(&self) -> Seq<Seq<char>> {
        views(self.reps@)
    }

    pub closed spec fn wf(&self) -> bool {
        &&& self.keys.len() == self.reps.len()
        &&& self.keys.len() == self.counts.len()
        &&& forall|j: int|
            0 <= j < self.counts.len() ==> #[trigger] self.counts[j] == count_in(
                views(self.keys@),
                self.keys[j]@,
            )
    }

    pub proof fn lemma_lens(&self)
        requires
            self.wf(),
        ensures
            self.key_seq().len() == self.rep_seq().len(),
    {
    }

    pub fn new() -> (r: Tally)
        ensures
            r.wf(),
            r.key_seq() == Seq::<Seq<char>>::empty(),
            r.rep_seq() == Seq::<Seq<char>>::empty(),
    {
        let r = Tally { keys: Vec::new(), reps: Vec::new(), counts: Vec::new() };
        assert(views(r.keys@) =~= Seq::<Seq<char>>::empty());
        assert(views(r.reps@) =~= Seq::<Seq<char>>::empty());
        r
    }

    pub fn len(&self) -> (r: usize)
        requires
            self.wf(),
        ensures
            r == self.key_seq().len(),
            r == self.rep_seq().len(),
    {
        self.keys.len()
    }

    /// Records one more candidate text under its grouping key.
    pub fn add(&mut self, key: String, rep: String)
        requires
            old(self).wf(),
            old(self).key_seq().len() < usize::MAX,
        ensures
            final(self).wf(),
            final(self).key_seq() == old(self).key_seq().push(key@),
            final(self).rep_seq() == old(self).rep_seq().push(rep@),
    {
        let n = self.keys.len();
        let ghost old_keys = views(self.keys@);
        let ghost new_keys = old_keys.push(key@);
        let mut same: usize = 0;
        let mut j: usize = 0;
        while j < n
            invariant
                n == self.keys.len(),
                n == self.counts.len(),
                n == self.reps.len(),
                old_keys == views(self.keys@),
                new_keys == old_keys.push(key@),
                n < usize::MAX,
                j <= n,
                same == count_in(old_keys.take(j as int), key@),
                same <= j,
                self.keys@ == old(self).keys@,
                self.reps@ == old(self).reps@,
                forall|i: int|
                    0 <= i < j ==> #[trigger] self.counts[i] == count_in(new_keys, self.keys[i]@),
                forall|i: int|
                    j <= i < n ==> #[trigger] self.counts[i] == count_in(old_keys, self.keys[i]@),
            decreases n - j,
        {
            proof {
                lemma_count_push(old_keys, key@, self.keys[j as int]@);
                lemma_count_le_len(old_keys, self.keys[j as int]@);
                lemma_count_push(old_keys.take(j as int), old_keys[j as int], key@);
                assert(old_keys.take(j as int).push(old_keys[j as int]) == old_keys.take(
                    j as int + 1,
                ));
                lemma_count_le_len(old_keys.take(j as int), key@);
            }
            if self.keys[j] == key {
                let c = self.counts[j];
                self.counts.set(j, c + 1);
                same += 1;
            }
            j += 1;
        }
        proof {
            assert(old_keys.take(n as int) == old_keys);
            lemma_count_push(old_keys, key@, key@);
        }
        self.keys.push(key);
        self.reps.push(rep);
        self.counts.push(same + 1);
        proof {
            assert(views(self.keys@) =~= new_keys);
            assert(views(self.reps@) =~= views(old(self).reps@).push(rep@));
        }
    }

    /// Whether the latest candidate's group now leads every other by `k`.
    pub fn margin_reached(&self, k: usize) -> (r: bool)
        requires
            self.wf(),
            self.key_seq().len() > 0,
        ensures
            r == margin_reached(self.key_seq(), k as nat),
    {
        let n = self.keys.len();
        let last = &self.keys[n - 1];
        let ghost ks = views(self.keys@);
        let mut m: usize = 0;
        let mut j: usize = 0;
        while j < n
            invariant
                n == self.keys.len(),
                n == self.counts.len(),
                n > 0,
                ks == views(self.keys@),
                *last == self.keys[n - 1],
                self.wf(),
                j <= n,
                m == max_other(ks, j as int, ks.last()),
            decreases n - j,
        {
            if self.keys[j] != *last {
                let c = self.counts[j];
                if c > m {
                    m = c;
                }
            }
            j += 1;
        }
        let c = self.counts[n - 1];
        c >= m && c - m >= k
    }

    /// The first-arrived candidate of the highest-count group, if any arrived.
    pub fn leader(&self) -> (r: Option<String>)
        requires
            self.wf(),
        ensures
            r is None <==> self.key_seq().len() == 0,
            r is Some ==> r->0@ == self.rep_seq()[leader(
                self.key_seq(),
                self.key_seq().len() as int,
            )],
    {
        let n = self.keys.len();
        if n == 0 {
            return None;
        }
        let ghost ks = views(self.keys@);
        let mut b: usize = 0;
        let mut j: usize = 1;
        while j < n
            invariant
                n == self.keys.len(),
                n == self.counts.len(),
                n == self.reps.len(),
                ks == views(self.keys@),
                self.wf(),
                1 <= j <= n,
                b < j,
                b as int == leader(ks, j as int),
            decreases n - j,
        {
            if self.counts[j] > self.counts[b] {
                b = j;
            }
            j += 1;
        }
        Some(self.reps[b].clone())
    }
}

/// Margin-based voting with a fixed margin.
pub struct VotingMechanism {
    k: usize,
}

impl VotingMechanism {
    /// The lead a group needs over every other group to win early.
    pub closed spec fn margin(&self) -> nat {
        self.k as nat
    }

    pub fn new(k: usize) -> (r: VotingMechanism)
        ensures
            r.margin() == k,
    {
        VotingMechanism { k }
    }

    /// Votes over `candidates` grouped by the given `keys`, one key per candidate.
    pub fn vote_keyed(&self, candidates: &Vec<String>, keys: &Vec<String>) -> (r: Option<String>)
        requires
            candidates.len() == keys.len(),
        ensures
            opt_view(r) == vote_spec(views(candidates@), views(keys@), self.margin()),
    {
        let n = keys.len();
        let ghost cs = views(candidates@);
        let ghost ks = views(keys@);
        let mut tally = Tally::new();
        let mut i: usize = 0;
        while i < n
            invariant
                n == keys.len(),
                n == candidates.len(),
                cs == views(candidates@),
                ks == views(keys@),
                i <= n,
                tally.wf(),
                tally.key_seq() == ks.take(i as int),
                tally.rep_seq() == cs.take(i as int),
                vote_spec(cs, ks, self.k as nat) == vote_from(cs, ks, self.k as nat, i as int),
            decreases n - i,
        {
            tally.add(keys[i].clone(), candidates[i].clone());
            assert(ks.take(i as int).push(ks[i as int]) == ks.take(i as int + 1));
            assert(cs.take(i as int).push(cs[i as int]) == cs.take(i as int + 1));
            if tally.margin_reached(self.k) {
                return Some(candidates[i].clone());
            }
            i += 1;
        }
        assert(ks.take(n as int) == ks);
        assert(cs.take(n as int) == cs);
        if n > 0 {
            proof {
                lemma_leader_range(ks, n as int);
            }
        }
        tally.leader()
    }

    /// Votes over `candidates` grouped by their normalized text.
    pub fn vote(&self, candidates: Vec<String>) -> (r: Option<String>)
        ensures
            opt_view(r) == vote_spec(
                views(candidates@),
                norm_keys(views(candidates@)),
                self.margin(),
            ),
    {
        let n = candidates.len();
        let mut keys: Vec<String> = Vec::new();
        let mut i: usize = 0;
        while i < n
            invariant
                n == candidates.len(),
                i <= n,
                keys.len() == i,
                forall|j: int|
                    0 <= j < i ==> #[trigger] keys[j]@ == norm_key(candidates[j]@),
            decreases n - i,
        {
            keys.push(normalize(candidates[i].as_str()));
            i += 1;
        }
        assert(views(keys@) =~= norm_keys(views(candidates@)));
        self.vote_keyed(&candidates, &keys)
    }
}

} // verus!
