//! The rules of warning throttling, over plain values: which warning is
//! written, how the counts move, and what the closing summary reports.

use crate::text::decimal;
use vstd::prelude::*;

verus! {

/// The state of the throttle as plain values.
pub struct WarningModel {
    /// How many warnings of one category are written before the rest is
    /// suppressed.
    pub max: u32,
    /// The categories that are never written and never counted.
    pub muted: Set<Seq<char>>,
    /// How often each category was raised, written or not.
    pub raised: Map<Seq<char>, u32>,
    /// The categories that were raised, in the order of their first warning.
    pub order: Seq<Seq<char>>,
}

/// The count that follows `count`. It stays at the largest value that a
/// count can hold.
pub open spec fn next_count(count: nat) -> u32 {
    if count < u32::MAX {
        (count + 1) as u32
    } else {
        u32::MAX
    }
}

/// The notice that `excess` warnings of the category `name` were suppressed.
pub open spec fn suppression_notice(name: Seq<char>, excess: nat) -> Seq<char> {
    if excess > 1 {
        decimal(excess) + " warnings of type \""@ + name
            + "\" were suppressed to prevent spam. Use \"-w "@ + name
            + "\" to disable these warnings entirely."@
    } else {
        decimal(excess) + " warning of type \""@ + name
            + "\" was suppressed to prevent spam. Use \"-w "@ + name
            + "\" to disable these warnings entirely."@
    }
}

impl WarningModel {
    /// The state before anything was configured or raised: a cap of 10,
    /// nothing muted.
    pub open spec fn initial() -> WarningModel {
        WarningModel { max: 10, muted: Set::empty(), raised: Map::empty(), order: Seq::empty() }
    }

    /// Every category that was raised stands in `order` exactly once, and
    /// nothing else does.
    pub open spec fn wf(self) -> bool {
        &&& self.order.no_duplicates()
        &&& forall|c: Seq<char>| self.order.contains(c) <==> self.raised.contains_key(c)
    }

    /// How often the category `c` was raised.
    pub open spec fn count(self, c: Seq<char>) -> nat {
        if self.raised.contains_key(c) {
            self.raised[c] as nat
        } else {
            0
        }
    }

    /// Whether a warning of the given category is written when it is raised
    /// in this state. One without a category always is.
    pub open spec fn emits(self, name: Option<Seq<char>>) -> bool {
        match name {
            Some(c) => !self.muted.contains(c) && self.count(c) < self.max,
            None => true,
        }
    }

    /// The state after a warning of the given category was raised. A muted
    /// category is not counted; any other is, written or not.
    pub open spec fn raise(self, name: Option<Seq<char>>) -> WarningModel {
        match name {
            Some(c) => if self.muted.contains(c) {
                self
            } else {
                WarningModel {
                    raised: self.raised.insert(c, next_count(self.count(c))),
                    order: if self.raised.contains_key(c) {
                        self.order
                    } else {
                        self.order.push(c)
                    },
                    ..self
                }
            },
            None => self,
        }
    }

    /// Whether a warning of the given category would be dropped: it is
    /// muted, or it was raised as often as the cap allows.
    pub open spec fn suppressed(self, name: Option<Seq<char>>) -> bool {
        match name {
            Some(c) => self.muted.contains(c) || (self.raised.contains_key(c) && self.raised[c]
                >= self.max),
            None => false,
        }
    }

    /// The state after the settings were given: the muted categories are
    /// replaced, and the cap is lifted where `verbose` is set.
    pub open spec fn configure(self, muted: Set<Seq<char>>, verbose: bool) -> WarningModel {
        WarningModel {
            muted,
            max: if verbose {
                u32::MAX
            } else {
                self.max
            },
            ..self
        }
    }

    /// Whether the summary has a notice for the category `c`.
    pub open spec fn reported(self, c: Seq<char>) -> bool {
        !self.muted.contains(c) && self.count(c) > self.max
    }

    /// How many warnings of the category `c` were raised beyond the cap.
    pub open spec fn excess(self, c: Seq<char>) -> nat {
        if self.count(c) > self.max {
            (self.count(c) - self.max) as nat
        } else {
            0
        }
    }

    /// The categories among the first `upto` of `order` that the summary has
    /// a notice for.
    pub open spec fn reported_upto(self, upto: nat) -> Seq<Seq<char>>
        decreases upto,
    {
        if upto == 0 {
            Seq::empty()
        } else {
            let before = self.reported_upto((upto - 1) as nat);
            let c = self.order[upto - 1];
            if self.reported(c) {
                before.push(c)
            } else {
                before
            }
        }
    }

    /// The categories that the summary has a notice for, in the order of
    /// their first warning.
    pub open spec fn reported_categories(self) -> Seq<Seq<char>> {
        self.reported_upto(self.order.len())
    }

    /// The notices among the first `upto` categories of `order`.
    pub open spec fn notices_upto(self, upto: nat) -> Seq<Seq<char>> {
        let categories = self.reported_upto(upto);
        Seq::new(
            categories.len(),
            |i: int| suppression_notice(categories[i], self.excess(categories[i])),
        )
    }

    /// The notices of the summary: one for each category that was raised
    /// beyond the cap and is not muted.
    pub open spec fn summary(self) -> Seq<Seq<char>> {
        self.notices_upto(self.order.len())
    }

    /// The state after the warnings of `calls` were raised one after the
    /// other.
    pub open spec fn run(self, calls: Seq<Option<Seq<char>>>) -> WarningModel
        decreases calls.len(),
    {
        if calls.len() == 0 {
            self
        } else {
            self.raise(calls[0]).run(calls.drop_first())
        }
    }

    /// How many of the warnings of `calls` that name the category `c` are
    /// written when they are raised one after the other.
    pub open spec fn printed(self, calls: Seq<Option<Seq<char>>>, c: Seq<char>) -> nat
        decreases calls.len(),
    {
        if calls.len() == 0 {
            0
        } else {
            let rest = self.raise(calls[0]).printed(calls.drop_first(), c);
            if calls[0] == Some(c) && self.emits(calls[0]) {
                1 + rest
            } else {
                rest
            }
        }
    }
}

/// How many of the warnings of `calls` name the category `c`.
pub open spec fn occurrences(calls: Seq<Option<Seq<char>>>, c: Seq<char>) -> nat
    decreases calls.len(),
{
    if calls.len() == 0 {
        0
    } else if calls[0] == Some(c) {
        1 + occurrences(calls.drop_first(), c)
    } else {
        occurrences(calls.drop_first(), c)
    }
}

/// Raising a warning keeps the state consistent.
pub proof fn lemma_raise_wf(m: WarningModel, name: Option<Seq<char>>)
    requires
        m.wf(),
    ensures
        m.raise(name).wf(),
{
    let after = m.raise(name);
    if let Some(c) = name {
        if !m.muted.contains(c) && !m.raised.contains_key(c) {
            assert(!m.order.contains(c));
            assert forall|d: Seq<char>| after.order.contains(d) <==> after.raised.contains_key(
                d,
            ) by {
                if after.order.contains(d) {
                    let i = choose|i: int| 0 <= i < after.order.len() && after.order[i] == d;
                    if i < m.order.len() {
                        assert(m.order[i] == d);
                        assert(m.order.contains(d));
                    }
                }
                if after.raised.contains_key(d) {
                    if d == c {
                        assert(after.order[m.order.len() as int] == c);
                    } else {
                        assert(m.order.contains(d));
                        let i = choose|i: int| 0 <= i < m.order.len() && m.order[i] == d;
                        assert(after.order[i] == d);
                    }
                }
            }
        }
    }
}

/// Raising a sequence of warnings keeps the state consistent, and leaves the
/// cap and the muted categories alone.
pub proof fn lemma_run_keeps(m: WarningModel, calls: Seq<Option<Seq<char>>>)
    ensures
        m.run(calls).max == m.max,
        m.run(calls).muted == m.muted,
        m.wf() ==> m.run(calls).wf(),
    decreases calls.len(),
{
    if calls.len() > 0 {
        if m.wf() {
            lemma_raise_wf(m, calls[0]);
        }
        lemma_run_keeps(m.raise(calls[0]), calls.drop_first());
    }
}

/// Every category among the reported ones is reported, and a category of
/// `order` that is reported is among them.
pub proof fn lemma_reported_upto(m: WarningModel, upto: nat, c: Seq<char>)
    requires
        upto <= m.order.len(),
    ensures
        m.reported_upto(upto).contains(c) <==> m.reported(c) && m.order.take(upto as int).contains(
            c,
        ),
    decreases upto,
{
    if upto > 0 {
        let before = m.reported_upto((upto - 1) as nat);
        let after = m.reported_upto(upto);
        let last = m.order[upto - 1];
        lemma_reported_upto(m, (upto - 1) as nat, c);
        let shorter = m.order.take(upto - 1);
        let longer = m.order.take(upto as int);
        assert(longer =~= shorter.push(last));
        if longer.contains(c) {
            let i = choose|i: int| 0 <= i < longer.len() && longer[i] == c;
            if i < upto - 1 {
                assert(shorter[i] == c);
            }
        }
        if shorter.contains(c) {
            let i = choose|i: int| 0 <= i < shorter.len() && shorter[i] == c;
            assert(longer[i] == c);
        }
        if last == c {
            assert(longer[upto - 1] == c);
        }
        if m.reported(last) {
            assert(after == before.push(last));
            if before.contains(c) {
                let i = choose|i: int| 0 <= i < before.len() && before[i] == c;
                assert(after[i] == c);
            }
            if after.contains(c) {
                let i = choose|i: int| 0 <= i < after.len() && after[i] == c;
                if i < before.len() {
                    assert(before[i] == c);
                }
            }
            if last == c {
                assert(after[before.len() as int] == c);
            }
        }
    }
}

/// The summary has a notice for a category exactly where the category is
/// not muted and was raised beyond the cap.
pub proof fn lemma_reported_categories(m: WarningModel, c: Seq<char>)
    requires
        m.wf(),
    ensures
        m.reported_categories().contains(c) <==> m.reported(c),
{
    lemma_reported_upto(m, m.order.len(), c);
    assert(m.order.take(m.order.len() as int) =~= m.order);
}

/// How many of `n` further warnings of one category are written when `k`
/// were raised before, under a cap of `max`: as many as the cap still allows.
pub open spec fn allowance(max: nat, k: nat, n: nat) -> nat {
    if k >= max {
        0
    } else if n <= max - k {
        n
    } else {
        (max - k) as nat
    }
}

/// The count of a category after `n` further warnings when `k` were raised
/// before: their sum, or the largest value that a count can hold.
pub open spec fn count_after(k: nat, n: nat) -> nat {
    if k + n <= u32::MAX {
        k + n
    } else {
        u32::MAX as nat
    }
}

/// A sequence of warnings moves the count of a category that is not muted by
/// the number of those that name it, and writes as many of them as the cap
/// still allows.
pub proof fn lemma_run_counts(m: WarningModel, calls: Seq<Option<Seq<char>>>, c: Seq<char>)
    requires
        !m.muted.contains(c),
    ensures
        m.run(calls).count(c) == count_after(m.count(c), occurrences(calls, c)),
        m.printed(calls, c) == allowance(m.max as nat, m.count(c), occurrences(calls, c)),
    decreases calls.len(),
{
    if calls.len() > 0 {
        lemma_run_counts(m.raise(calls[0]), calls.drop_first(), c);
    }
}

/// Of the warnings of a category that is not muted and was not raised
/// before, as many are written as there are, up to the cap.
pub proof fn law_written_up_to_cap(m: WarningModel, calls: Seq<Option<Seq<char>>>, c: Seq<char>)
    requires
        !m.muted.contains(c),
        !m.raised.contains_key(c),
    ensures
        m.printed(calls, c) == if occurrences(calls, c) <= m.max {
            occurrences(calls, c)
        } else {
            m.max as nat
        },
{
    lemma_run_counts(m, calls, c);
}

/// After the warnings of a category that is not muted and was not raised
/// before, the summary has a notice for the category exactly where more were
/// raised than the cap allows, and then the excess is their number less the
/// cap. This holds as long as their number is one that a count can hold.
pub proof fn law_summary_reports_excess(
    m: WarningModel,
    calls: Seq<Option<Seq<char>>>,
    c: Seq<char>,
)
    requires
        m.wf(),
        !m.muted.contains(c),
        !m.raised.contains_key(c),
        occurrences(calls, c) <= u32::MAX,
    ensures
        m.run(calls).reported_categories().contains(c) <==> occurrences(calls, c) > m.max,
        occurrences(calls, c) > m.max ==> m.run(calls).excess(c) == occurrences(calls, c) - m.max,
        occurrences(calls, c) <= m.max ==> m.run(calls).excess(c) == 0,
{
    lemma_run_counts(m, calls, c);
    lemma_run_keeps(m, calls);
    lemma_reported_categories(m.run(calls), c);
}

/// Of the warnings of a muted category none is written, and the summary has
/// no notice for it, however many are raised.
pub proof fn law_muted_category(m: WarningModel, calls: Seq<Option<Seq<char>>>, c: Seq<char>)
    requires
        m.muted.contains(c),
    ensures
        m.printed(calls, c) == 0,
        !m.run(calls).reported_categories().contains(c),
    decreases calls.len(),
{
    lemma_run_keeps(m, calls);
    lemma_reported_upto(m.run(calls), m.run(calls).order.len(), c);
    if calls.len() > 0 {
        law_muted_category(m.raise(calls[0]), calls.drop_first(), c);
    }
}

/// Once the cap is lifted, every warning of a category that is not muted is
/// written, as long as the count of the category stays below the largest
/// value that it can hold.
pub proof fn law_verbose_unbounded(
    m: WarningModel,
    muted: Set<Seq<char>>,
    calls: Seq<Option<Seq<char>>>,
    c: Seq<char>,
)
    requires
        !muted.contains(c),
        m.count(c) + occurrences(calls, c) <= u32::MAX,
    ensures
        m.configure(muted, true).max == u32::MAX,
        m.configure(muted, true).printed(calls, c) == occurrences(calls, c),
{
    lemma_run_counts(m.configure(muted, true), calls, c);
}

/// Under a cap of at least 1, a warning is written exactly where its
/// category does not count as suppressed.
pub proof fn law_suppressed_is_not_written(m: WarningModel, name: Option<Seq<char>>)
    requires
        m.max >= 1,
    ensures
        m.suppressed(name) <==> !m.emits(name),
{
}

} // verus!
