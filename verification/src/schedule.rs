//! A chain's hardfork schedule: an ordered list of forks with their
//! activation conditions, at most one entry per fork name.
//!
//! Entries are keyed by fork name: scheduling a name that is present replaces
//! its condition in place, a new name is appended, and a name that is absent
//! reads `Never`.

use vstd::prelude::*;
use crate::hardfork::{ForkCondition, ForkName, Hardfork};

verus! {

/// One scheduled fork.
pub type ForkEntry = (Hardfork, ForkCondition);

/// The condition under which the fork named `n` activates in `s`: that of the
/// first entry with that name, or `Never` when there is none.
pub open spec fn fork_condition(s: Seq<ForkEntry>, n: ForkName) -> ForkCondition
    decreases s.len(),
{
    if s.len() == 0 {
        ForkCondition::Never
    } else if s[0].0.spec_name() == n {
        s[0].1
    } else {
        fork_condition(s.drop_first(), n)
    }
}

/// `s` after scheduling `fork` at `cond`: the first entry with the fork's name
/// takes the new condition in place; with no such entry, one is appended.
pub open spec fn with_fork_spec(s: Seq<ForkEntry>, fork: Hardfork, cond: ForkCondition) -> Seq<
    ForkEntry,
>
    decreases s.len(),
{
    if s.len() == 0 {
        seq![(fork, cond)]
    } else if s[0].0.spec_name() == fork.spec_name() {
        seq![(s[0].0, cond)] + s.drop_first()
    } else {
        seq![s[0]] + with_fork_spec(s.drop_first(), fork, cond)
    }
}

/// Whether some entry of `s` has the name `n`.
pub open spec fn has_fork(s: Seq<ForkEntry>, n: ForkName) -> bool {
    exists|i: int| 0 <= i < s.len() && #[trigger] s[i].0.spec_name() == n
}

/// No two entries of `s` share a name.
pub open spec fn unique_names(s: Seq<ForkEntry>) -> bool {
    forall|i: int, j: int|
        0 <= i < s.len() && 0 <= j < s.len() && i != j ==> #[trigger] s[i].0.spec_name()
            != #[trigger] s[j].0.spec_name()
}

/// Skipping a prefix of entries that carry other names changes neither the
/// looked-up condition nor where a new condition lands.
proof fn lemma_skip_other_names(s: Seq<ForkEntry>, fork: Hardfork, cond: ForkCondition, i: int)
    requires
        0 <= i <= s.len(),
        forall|j: int| 0 <= j < i ==> #[trigger] s[j].0.spec_name() != fork.spec_name(),
    ensures
        fork_condition(s, fork.spec_name()) == fork_condition(s.skip(i), fork.spec_name()),
        with_fork_spec(s, fork, cond) == s.take(i) + with_fork_spec(s.skip(i), fork, cond),
    decreases i,
{
    if i > 0 {
        let t = s.drop_first();
        assert forall|j: int| 0 <= j < i - 1 implies #[trigger] t[j].0.spec_name()
            != fork.spec_name() by {
            assert(t[j] == s[j + 1]);
        }
        lemma_skip_other_names(t, fork, cond, i - 1);
        assert(t.skip(i - 1) =~= s.skip(i));
        assert(s.take(i) =~= seq![s[0]] + t.take(i - 1));
        assert(seq![s[0]] + (t.take(i - 1) + with_fork_spec(s.skip(i), fork, cond)) =~= s.take(i)
            + with_fork_spec(s.skip(i), fork, cond));
    } else {
        assert(s.skip(0) =~= s);
        assert(s.take(0) + with_fork_spec(s, fork, cond) =~= with_fork_spec(s, fork, cond));
    }
}

/// After scheduling `fork` at `cond`, the fork's name reads back `cond`.
pub proof fn law_with_fork_reads_back(s: Seq<ForkEntry>, fork: Hardfork, cond: ForkCondition)
    ensures
        fork_condition(with_fork_spec(s, fork, cond), fork.spec_name()) == cond,
    decreases s.len(),
{
    let r = with_fork_spec(s, fork, cond);
    if s.len() > 0 && s[0].0.spec_name() != fork.spec_name() {
        law_with_fork_reads_back(s.drop_first(), fork, cond);
        assert(r.drop_first() =~= with_fork_spec(s.drop_first(), fork, cond));
    }
}

/// Scheduling a fork leaves the condition of every other name unchanged.
pub proof fn law_with_fork_keeps_others(
    s: Seq<ForkEntry>,
    fork: Hardfork,
    cond: ForkCondition,
    n: ForkName,
)
    requires
        n != fork.spec_name(),
    ensures
        fork_condition(with_fork_spec(s, fork, cond), n) == fork_condition(s, n),
    decreases s.len(),
{
    let r = with_fork_spec(s, fork, cond);
    if s.len() > 0 {
        if s[0].0.spec_name() == fork.spec_name() {
            assert(r[0] == (s[0].0, cond));
            assert(r.drop_first() =~= s.drop_first());
            assert(fork_condition(r, n) == fork_condition(r.drop_first(), n));
        } else {
            law_with_fork_keeps_others(s.drop_first(), fork, cond, n);
            assert(r[0] == s[0]);
            assert(r.drop_first() =~= with_fork_spec(s.drop_first(), fork, cond));
        }
    } else {
        assert(r[0] == (fork, cond));
        assert(r.drop_first() =~= Seq::<ForkEntry>::empty());
        assert(fork_condition(r, n) == fork_condition(r.drop_first(), n));
    }
}

/// Scheduling a fork adds its name and no other: the names present after
/// are those present before, and the fork's own.
pub proof fn law_with_fork_names(s: Seq<ForkEntry>, fork: Hardfork, cond: ForkCondition, n: ForkName)
    ensures
        has_fork(with_fork_spec(s, fork, cond), n) <==> (has_fork(s, n) || n == fork.spec_name()),
        with_fork_spec(s, fork, cond).len() == if has_fork(s, fork.spec_name()) {
            s.len()
        } else {
            s.len() + 1
        },
    decreases s.len(),
{
    let r = with_fork_spec(s, fork, cond);
    if s.len() == 0 {
        assert(r[0].0.spec_name() == fork.spec_name());
    } else {
        let t = s.drop_first();
        law_with_fork_names(t, fork, cond, n);
        if s[0].0.spec_name() == fork.spec_name() {
            assert(has_fork(s, fork.spec_name())) by {
                assert(s[0].0.spec_name() == fork.spec_name());
            }
            if has_fork(s, n) {
                let i = choose|i: int| 0 <= i < s.len() && #[trigger] s[i].0.spec_name() == n;
                assert(r[i].0.spec_name() == n);
            }
            if has_fork(r, n) {
                let i = choose|i: int| 0 <= i < r.len() && #[trigger] r[i].0.spec_name() == n;
                assert(s[i].0.spec_name() == n);
            }
        } else {
            let rt = with_fork_spec(t, fork, cond);
            assert(r =~= seq![s[0]] + rt);
            if has_fork(s, n) {
                let i = choose|i: int| 0 <= i < s.len() && #[trigger] s[i].0.spec_name() == n;
                if i == 0 {
                    assert(r[0].0.spec_name() == n);
                } else {
                    assert(t[i - 1].0.spec_name() == n);
                    let k = choose|k: int| 0 <= k < rt.len() && #[trigger] rt[k].0.spec_name() == n;
                    assert(r[k + 1].0.spec_name() == n);
                }
            }
            if n == fork.spec_name() {
                let k = choose|k: int| 0 <= k < rt.len() && #[trigger] rt[k].0.spec_name() == n;
                assert(r[k + 1].0.spec_name() == n);
            }
            if has_fork(r, n) {
                let i = choose|i: int| 0 <= i < r.len() && #[trigger] r[i].0.spec_name() == n;
                if i == 0 {
                    assert(s[0].0.spec_name() == n);
                } else {
                    assert(rt[i - 1].0.spec_name() == n);
                    if has_fork(t, n) {
                        let k = choose|k: int| 0 <= k < t.len() && #[trigger] t[k].0.spec_name() == n;
                        assert(s[k + 1].0.spec_name() == n);
                    }
                }
            }
            if has_fork(t, fork.spec_name()) {
                let k = choose|k: int|
                    0 <= k < t.len() && #[trigger] t[k].0.spec_name() == fork.spec_name();
                assert(s[k + 1].0.spec_name() == fork.spec_name());
            }
            if has_fork(s, fork.spec_name()) {
                let k = choose|k: int|
                    0 <= k < s.len() && #[trigger] s[k].0.spec_name() == fork.spec_name();
                assert(t[k - 1].0.spec_name() == fork.spec_name());
            }
        }
    }
}

/// Scheduling a fork never gives two entries the same name.
pub proof fn law_with_fork_keeps_names_unique(s: Seq<ForkEntry>, fork: Hardfork, cond: ForkCondition)
    requires
        unique_names(s),
    ensures
        unique_names(with_fork_spec(s, fork, cond)),
    decreases s.len(),
{
    let r = with_fork_spec(s, fork, cond);
    if s.len() > 0 {
        let t = s.drop_first();
        if s[0].0.spec_name() == fork.spec_name() {
            assert forall|i: int, j: int|
                0 <= i < r.len() && 0 <= j < r.len() && i != j implies #[trigger] r[i].0.spec_name()
                != #[trigger] r[j].0.spec_name() by {
                assert(r[i].0 == s[i].0);
                assert(r[j].0 == s[j].0);
            }
        } else {
            assert forall|i: int, j: int|
                0 <= i < t.len() && 0 <= j < t.len() && i != j implies #[trigger] t[i].0.spec_name()
                != #[trigger] t[j].0.spec_name() by {
                assert(t[i] == s[i + 1]);
                assert(t[j] == s[j + 1]);
            }
            law_with_fork_keeps_names_unique(t, fork, cond);
            let rt = with_fork_spec(t, fork, cond);
            assert(r =~= seq![s[0]] + rt);
            assert forall|i: int, j: int|
                0 <= i < r.len() && 0 <= j < r.len() && i != j implies #[trigger] r[i].0.spec_name()
                != #[trigger] r[j].0.spec_name() by {
                if i == 0 || j == 0 {
                    let k = if i == 0 { j } else { i };
                    let n = r[k].0.spec_name();
                    law_with_fork_names(t, fork, cond, n);
                    assert(rt[k - 1].0.spec_name() == n);
                    if has_fork(t, n) {
                        let m = choose|m: int| 0 <= m < t.len() && #[trigger] t[m].0.spec_name() == n;
                        assert(s[m + 1].0.spec_name() == n);
                    }
                } else {
                    assert(r[i] == rt[i - 1]);
                    assert(r[j] == rt[j - 1]);
                }
            }
        }
    }
}

/// Scheduling the same name twice is scheduling it once, at the second
/// condition: the last write wins and the entry keeps its place.
pub proof fn law_with_fork_last_wins(
    s: Seq<ForkEntry>,
    first: Hardfork,
    c1: ForkCondition,
    second: Hardfork,
    c2: ForkCondition,
)
    requires
        first.spec_name() == second.spec_name(),
    ensures
        with_fork_spec(with_fork_spec(s, first, c1), second, c2) == with_fork_spec(s, first, c2),
    decreases s.len(),
{
    let r1 = with_fork_spec(s, first, c1);
    if s.len() == 0 {
        assert(r1.drop_first() =~= Seq::<ForkEntry>::empty());
        assert(with_fork_spec(r1, second, c2) =~= seq![(first, c2)]);
    } else if s[0].0.spec_name() == first.spec_name() {
        assert(r1.drop_first() =~= s.drop_first());
        assert(with_fork_spec(r1, second, c2) =~= with_fork_spec(s, first, c2));
    } else {
        law_with_fork_last_wins(s.drop_first(), first, c1, second, c2);
        assert(r1.drop_first() =~= with_fork_spec(s.drop_first(), first, c1));
        assert(with_fork_spec(r1, second, c2) =~= with_fork_spec(s, first, c2));
    }
}

/// A hardfork schedule: forks in the order they were first scheduled, each
/// name at most once.
pub struct ChainHardforks {
    forks: Vec<ForkEntry>,
}

impl View for ChainHardforks {
    type V = Seq<ForkEntry>;

    closed spec fn view(&self) -> Seq<ForkEntry> {
        self.forks@
    }
}

impl ChainHardforks {
    /// An empty schedule.
    pub fn new() -> (r: Self)
        ensures
            r@ == Seq::<ForkEntry>::empty(),
            unique_names(r@),
    {
        ChainHardforks { forks: Vec::new() }
    }

    /// Schedules `fork` at `cond`. An entry that already carries the fork's
    /// name keeps its place and takes the new condition; otherwise the fork
    /// is appended.
    pub fn insert(&mut self, fork: Hardfork, cond: ForkCondition)
        ensures
            final(self)@ == with_fork_spec(old(self)@, fork, cond),
            unique_names(old(self)@) ==> unique_names(final(self)@),
    {
        let ghost s = self.forks@;
        proof {
            if unique_names(s) {
                law_with_fork_keeps_names_unique(s, fork, cond);
            }
        }
        match self.position(fork.name()) {
            Some(i) => {
                let existing = self.forks[i].0;
                proof {
                    lemma_skip_other_names(s, fork, cond, i as int);
                    let rest = s.skip(i as int);
                    assert(rest[0] == s[i as int]);
                    assert(rest.drop_first() =~= s.skip(i + 1));
                }
                self.forks.set(i, (existing, cond));
                proof {
                    assert(self.forks@ =~= s.take(i as int) + (seq![(existing, cond)] + s.skip(i + 1)));
                }
            },
            None => {
                proof {
                    lemma_skip_other_names(s, fork, cond, s.len() as int);
                    assert(s.skip(s.len() as int) =~= Seq::<ForkEntry>::empty());
                    assert(s.take(s.len() as int) =~= s);
                }
                self.forks.push((fork, cond));
            },
        }
    }

    /// This schedule with `fork` scheduled at `cond`, as `insert` does it.
    pub fn with_fork(self, fork: Hardfork, cond: ForkCondition) -> (r: Self)
        ensures
            r@ == with_fork_spec(self@, fork, cond),
            unique_names(self@) ==> unique_names(r@),
    {
        let mut s = self;
        s.insert(fork, cond);
        s
    }

    /// The activation condition of `fork`, looked up by its name; `Never`
    /// when the schedule does not name it.
    pub fn fork(&self, fork: Hardfork) -> (r: ForkCondition)
        ensures
            r == fork_condition(self@, fork.spec_name()),
    {
        let ghost s = self.forks@;
        match self.position(fork.name()) {
            Some(i) => {
                proof {
                    lemma_skip_other_names(s, fork, ForkCondition::Never, i as int);
                    assert(s.skip(i as int)[0] == s[i as int]);
                }
                self.forks[i].1
            },
            None => {
                proof {
                    lemma_skip_other_names(s, fork, ForkCondition::Never, s.len() as int);
                    assert(s.skip(s.len() as int) =~= Seq::<ForkEntry>::empty());
                }
                ForkCondition::Never
            },
        }
    }

    /// The index of the first entry named `n`, if any.
    fn position(&self, n: ForkName) -> (r: Option<usize>)
        ensures
            match r {
                Some(i) => i < self@.len() && self@[i as int].0.spec_name() == n && forall|j: int|
                    0 <= j < i ==> #[trigger] self@[j].0.spec_name() != n,
                None => forall|j: int| 0 <= j < self@.len() ==> #[trigger] self@[j].0.spec_name() != n,
            },
    {
        let mut i: usize = 0;
        while i < self.forks.len()
            invariant
                0 <= i <= self.forks.len(),
                forall|j: int| 0 <= j < i ==> #[trigger] self.forks@[j].0.spec_name() != n,
            decreases self.forks.len() - i,
        {
            if self.forks[i].0.name() == n {
                return Some(i);
            }
            i = i + 1;
        }
        None
    }

    /// Whether `fork` is active at `timestamp` under this schedule.
    pub fn is_fork_active_at_timestamp(&self, fork: Hardfork, timestamp: u64) -> (r: bool)
        ensures
            r == fork_condition(self@, fork.spec_name()).spec_active_at_timestamp(timestamp),
    {
        self.fork(fork).active_at_timestamp(timestamp)
    }

    /// Whether `fork` is active at block `block` under this schedule.
    pub fn is_fork_active_at_block(&self, fork: Hardfork, block: u64) -> (r: bool)
        ensures
            r == fork_condition(self@, fork.spec_name()).spec_active_at_block(block),
    {
        self.fork(fork).active_at_block(block)
    }

    /// The number of scheduled forks.
    pub fn len(&self) -> (r: usize)
        ensures
            r == self@.len(),
    {
        self.forks.len()
    }

    /// The scheduled forks, in order.
    pub fn entries(&self) -> (r: Vec<ForkEntry>)
        ensures
            r@ == self@,
    {
        let mut out: Vec<ForkEntry> = Vec::new();
        let mut i: usize = 0;
        while i < self.forks.len()
            invariant
                0 <= i <= self.forks.len(),
                out@ == self.forks@.take(i as int),
            decreases self.forks.len() - i,
        {
            out.push(self.forks[i]);
            proof {
                assert(self.forks@.take(i + 1) =~= self.forks@.take(i as int).push(self.forks@[i as int]));
            }
            i = i + 1;
        }
        proof {
            assert(self.forks@.take(self.forks@.len() as int) =~= self.forks@);
        }
        out
    }
}

} // verus!
