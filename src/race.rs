//! The decision state of one consensus race: which candidate answers enter
//! the tally, when a winner is declared, and what the race returns when its
//! attempts are exhausted. The concurrent attempts themselves run elsewhere
//! and hand each result to `RaceTally::offer`.
use vstd::prelude::*;
use crate::text::{trim_of, byte_len, trim, utf8_len};
use crate::red_flag::{RedFlagFilter, confusion_loop, DEFAULT_MAX_TOKENS};
use crate::voting::{Tally, margin_reached, leader, lemma_leader_range, norm_key, normalize, opt_view};

verus! {

/// Longest candidate, in UTF-8 bytes, that a race admits.
pub const RACE_MAX_BYTES: usize = 1000;

/// A trimmed candidate text that may enter the tally: not empty, not too
/// long, and not rejected by the default red-flag filter.
pub open spec fn admissible(t: Seq<char>) -> bool {
    &&& 0 < t.len() && byte_len(t) <= RACE_MAX_BYTES
    &&& !(t.len() > 4 * DEFAULT_MAX_TOKENS || confusion_loop(t))
}

/// The state of a race: grouping keys and texts admitted so far, in arrival
/// order, and whether the race is closed (decided or cancelled).
pub type RaceState = (Seq<Seq<char>>, Seq<Seq<char>>, bool);

/// The state after one attempt returned `content`, with margin `k`.
pub open spec fn race_step(s: RaceState, content: Seq<char>, k: nat) -> RaceState {
    if s.2 {
        s
    } else {
        let t = trim_of(content);
        if !admissible(t) {
            s
        } else {
            let keys = s.0.push(norm_key(t));
            (keys, s.1.push(t), margin_reached(keys, k))
        }
    }
}

/// The state after the attempts returned `contents`, in this order.
pub open spec fn race_steps(s: RaceState, contents: Seq<Seq<char>>, k: nat) -> RaceState
    decreases contents.len(),
{
    if contents.len() == 0 {
        s
    } else {
        race_steps(race_step(s, contents[0], k), contents.drop_first(), k)
    }
}

/// Once a race is closed, whatever the remaining attempts return, nothing
/// more enters its tally and it stays closed.
pub proof fn lemma_closed_race_admits_nothing(s: RaceState, contents: Seq<Seq<char>>, k: nat)
    requires
        s.2,
    ensures
        race_steps(s, contents, k) == s,
    decreases contents.len(),
{
    if contents.len() > 0 {
        lemma_closed_race_admits_nothing(race_step(s, contents[0], k), contents.drop_first(), k);
    }
}

/// The answer that closes an open race is the last one admitted, and it stays
/// the last one admitted whatever the remaining attempts return.
pub proof fn lemma_decision_is_final(
    s: RaceState,
    content: Seq<char>,
    rest: Seq<Seq<char>>,
    k: nat,
)
    requires
        !s.2,
        race_step(s, content, k).2,
    ensures
        race_step(s, content, k).1.last() == trim_of(content),
        race_steps(race_step(s, content, k), rest, k) == race_step(s, content, k),
{
    lemma_closed_race_admits_nothing(race_step(s, content, k), rest, k);
}

/// The running tally of one race with margin `k`.
pub struct RaceTally {
    k: usize,
    tally: Tally,
    filter: RedFlagFilter,
    closed: bool,
}

impl RaceTally {
    pub closed spec fn state(&self) -> RaceState {
        (self.tally.key_seq(), self.tally.rep_seq(), self.closed)
    }

    pub closed spec fn margin(&self) -> nat {
        self.k as nat
    }

    #[verifier::type_invariant]
    spec fn inv(&self) -> bool {
        self.tally.wf() && self.filter.max_tokens() == DEFAULT_MAX_TOKENS
    }

    pub fn new(k: usize) -> (r: RaceTally)
        ensures
            r.margin() == k,
            r.state() == (Seq::<Seq<char>>::empty(), Seq::<Seq<char>>::empty(), false),
    {
        RaceTally { k, tally: Tally::new(), filter: RedFlagFilter::new(), closed: false }
    }

    /// Feeds one attempt's answer. Returns the winning text when this answer
    /// decides the race, which then closes.
    pub fn offer(&mut self, content: &str) -> (r: Option<String>)
        requires
            old(self).state().0.len() < usize::MAX,
        ensures
            final(self).margin() == old(self).margin(),
            final(self).state() == race_step(old(self).state(), content@, old(self).margin()),
            opt_view(r) == if !old(self).state().2 && final(self).state().2 {
                Some(trim_of(content@))
            } else {
                None::<Seq<char>>
            },
    {
        proof {
            use_type_invariant(&*self);
        }
        if self.closed {
            return None;
        }
        let t = trim(content);
        let n = t.unicode_len();
        if n == 0 || utf8_len(t) > RACE_MAX_BYTES || self.filter.is_flagged(t) {
            return None;
        }
        let mut tally = Tally::new();
        std::mem::swap(&mut tally, &mut self.tally);
        tally.add(normalize(t), t.to_owned());
        std::mem::swap(&mut tally, &mut self.tally);
        if self.tally.margin_reached(self.k) {
            self.closed = true;
            Some(t.to_owned())
        } else {
            None
        }
    }

    /// Closes the race, as its cancellation signal fires.
    pub fn close(&mut self)
        ensures
            final(self).margin() == old(self).margin(),
            final(self).state() == (old(self).state().0, old(self).state().1, true),
    {
        proof {
            use_type_invariant(&*self);
        }
        self.closed = true;
    }

    /// How many answers the tally holds.
    pub fn admitted(&self) -> (r: usize)
        ensures
            r == self.state().0.len(),
    {
        proof {
            use_type_invariant(&*self);
        }
        self.tally.len()
    }

    pub fn is_closed(&self) -> (r: bool)
        ensures
            r == self.state().2,
    {
        self.closed
    }

    /// What the race returns once every attempt has resolved without a
    /// decisive lead: the first text of the highest-count group, or an empty
    /// text when nothing was admitted.
    pub fn fallback(&self) -> (r: String)
        ensures
            self.state().1.len() == 0 ==> r@.len() == 0,
            self.state().1.len() > 0 ==> r@ == self.state().1[leader(
                self.state().0,
                self.state().0.len() as int,
            )],
    {
        proof {
            use_type_invariant(&*self);
            self.tally.lemma_lens();
            if self.state().0.len() > 0 {
                lemma_leader_range(self.state().0, self.state().0.len() as int);
            }
        }
        match self.tally.leader() {
            Some(w) => w,
            None => String::new(),
        }
    }
}

} // verus!
