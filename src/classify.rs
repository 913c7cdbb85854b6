//! Classification of a fingerprint against its baseline, and the store of
//! baselines.
use vstd::prelude::*;
use crate::fingerprint::{FingerprintView, RegressionTest};

verus! {

/// The outcome of checking one story.
#[derive(PartialEq, Eq, Structural, Clone, Copy, Debug)]
pub enum RegressionTestStatus {
    /// No baseline existed: the fingerprint becomes the baseline.
    Created,
    /// A hash differs from the baseline's.
    Failed,
    /// All three hashes equal the baseline's.
    Passed,
    /// The story was not evaluated.
    Skipped,
}

/// The classification of one story.
#[derive(Debug)]
pub struct RegressionTestResult {
    pub status: RegressionTestStatus,
    /// The fingerprint just captured; absent for a skipped story.
    pub current_test: Option<RegressionTest>,
    /// The baseline it was compared with, if there was one.
    pub expected_test: Option<RegressionTest>,
}

/// The view of an optional fingerprint.
pub open spec fn opt_view(t: Option<RegressionTest>) -> Option<FingerprintView> {
    match t {
        Some(x) => Some(x@),
        None => None,
    }
}

/// The view of an optional borrowed fingerprint.
pub open spec fn ref_view(t: Option<&RegressionTest>) -> Option<FingerprintView> {
    match t {
        Some(x) => Some(x@),
        None => None,
    }
}

/// Whether the markup, style and visual hashes of `a` and `b` are equal.
pub open spec fn hashes_match(a: FingerprintView, b: FingerprintView) -> bool {
    a.dom_hash == b.dom_hash && a.style_hash == b.style_hash && a.visual_hash == b.visual_hash
}

/// The status of a fingerprint `current` against its baseline, if any.
pub open spec fn status_of(current: FingerprintView, baseline: Option<FingerprintView>) -> RegressionTestStatus {
    match baseline {
        None => RegressionTestStatus::Created,
        Some(b) => if hashes_match(current, b) {
            RegressionTestStatus::Passed
        } else {
            RegressionTestStatus::Failed
        },
    }
}

/// Classifies `current` against `baseline`: `Created` without one, `Passed`
/// when the three hashes are exactly equal to the baseline's, `Failed`
/// otherwise.
pub fn classify(current: RegressionTest, baseline: Option<&RegressionTest>) -> (r: RegressionTestResult)
    ensures
        r.status == status_of(current@, ref_view(baseline)),
        opt_view(r.current_test) == Some(current@),
        opt_view(r.expected_test) == ref_view(baseline),
{
    match baseline {
        None => RegressionTestResult {
            status: RegressionTestStatus::Created,
            current_test: Some(current),
            expected_test: None,
        },
        Some(b) => {
            let same = current.dom_hash == b.dom_hash && current.style_hash == b.style_hash
                && current.visual_hash == b.visual_hash;
            let status = if same {
                RegressionTestStatus::Passed
            } else {
                RegressionTestStatus::Failed
            };
            RegressionTestResult {
                status,
                current_test: Some(current),
                expected_test: Some(b.duplicate()),
            }
        },
    }
}

/// The result for a story that is not evaluated: `Skipped`, with no
/// fingerprint.
pub fn skipped() -> (r: RegressionTestResult)
    ensures
        r.status == RegressionTestStatus::Skipped,
        r.current_test is None,
        r.expected_test is None,
{
    RegressionTestResult {
        status: RegressionTestStatus::Skipped,
        current_test: None,
        expected_test: None,
    }
}

/// Whether fingerprint `t` is kept under component `c` and viewport `v`.
pub open spec fn keyed(t: FingerprintView, c: Seq<char>, v: Seq<char>) -> bool {
    t.component == c && t.viewport == v
}

/// The baseline for `(c, v)` among `entries`: the last entry under that key.
pub open spec fn baseline_in(entries: Seq<FingerprintView>, c: Seq<char>, v: Seq<char>) -> Option<
    FingerprintView,
>
    decreases entries.len(),
{
    if entries.len() == 0 {
        None
    } else if keyed(entries.last(), c, v) {
        Some(entries.last())
    } else {
        baseline_in(entries.drop_last(), c, v)
    }
}

/// The views of a sequence of fingerprints.
pub open spec fn fingerprint_views(s: Seq<RegressionTest>) -> Seq<FingerprintView> {
    s.map_values(|t: RegressionTest| t@)
}

proof fn baseline_after_update_elsewhere(
    s: Seq<FingerprintView>,
    i: int,
    t: FingerprintView,
    c: Seq<char>,
    v: Seq<char>,
)
    requires
        0 <= i < s.len(),
        !keyed(s[i], c, v),
        !keyed(t, c, v),
    ensures
        baseline_in(s.update(i, t), c, v) == baseline_in(s, c, v),
    decreases s.len(),
{
    let u = s.update(i, t);
    if i < s.len() - 1 {
        assert(u.drop_last() =~= s.drop_last().update(i, t));
        baseline_after_update_elsewhere(s.drop_last(), i, t, c, v);
    } else {
        assert(u.drop_last() =~= s.drop_last());
    }
}

proof fn baseline_after_update_of_last_match(
    s: Seq<FingerprintView>,
    i: int,
    t: FingerprintView,
    c: Seq<char>,
    v: Seq<char>,
)
    requires
        0 <= i < s.len(),
        keyed(t, c, v),
        forall|j: int| i < j < s.len() ==> !keyed(#[trigger] s[j], c, v),
    ensures
        baseline_in(s.update(i, t), c, v) == Some(t),
    decreases s.len(),
{
    let u = s.update(i, t);
    if i < s.len() - 1 {
        assert(u.drop_last() =~= s.drop_last().update(i, t));
        assert(!keyed(s[s.len() - 1], c, v));
        baseline_after_update_of_last_match(s.drop_last(), i, t, c, v);
    }
}

proof fn no_key_no_baseline(s: Seq<FingerprintView>, c: Seq<char>, v: Seq<char>)
    requires
        forall|j: int| 0 <= j < s.len() ==> !keyed(#[trigger] s[j], c, v),
    ensures
        baseline_in(s, c, v) is None,
    decreases s.len(),
{
    if s.len() > 0 {
        assert(!keyed(s[s.len() - 1], c, v));
        no_key_no_baseline(s.drop_last(), c, v);
    }
}

proof fn baseline_at_last_match(s: Seq<FingerprintView>, i: int, c: Seq<char>, v: Seq<char>)
    requires
        0 <= i < s.len(),
        keyed(s[i], c, v),
        forall|j: int| i < j < s.len() ==> !keyed(#[trigger] s[j], c, v),
    ensures
        baseline_in(s, c, v) == Some(s[i]),
    decreases s.len(),
{
    if i < s.len() - 1 {
        assert(!keyed(s[s.len() - 1], c, v));
        baseline_at_last_match(s.drop_last(), i, c, v);
    }
}

/// The accepted fingerprints, keyed by component and viewport.
pub struct BaselineStore {
    entries: Vec<RegressionTest>,
}

impl BaselineStore {
    /// The baseline kept for component `c` at viewport `v`, if any.
    pub closed spec fn baseline(&self, c: Seq<char>, v: Seq<char>) -> Option<FingerprintView> {
        baseline_in(fingerprint_views(self.entries@), c, v)
    }

    /// A store without baselines.
    pub fn new() -> (r: BaselineStore)
        ensures
            forall|c: Seq<char>, v: Seq<char>| #[trigger] r.baseline(c, v) is None,
    {
        BaselineStore { entries: Vec::new() }
    }

    /// A store holding `entries`, such as were read back from where an
    /// earlier run kept them; the last entry under a key is its baseline.
    pub fn from_entries(entries: Vec<RegressionTest>) -> (r: BaselineStore)
        ensures
            forall|c: Seq<char>, v: Seq<char>| #[trigger]
                r.baseline(c, v) == baseline_in(fingerprint_views(entries@), c, v),
    {
        BaselineStore { entries }
    }

    /// The fingerprints kept, to be saved; the last one under a key is its
    /// baseline.
    pub fn entries(&self) -> (r: &Vec<RegressionTest>)
        ensures
            forall|c: Seq<char>, v: Seq<char>| #[trigger]
                self.baseline(c, v) == baseline_in(fingerprint_views(r@), c, v),
    {
        &self.entries
    }

    /// Where the baseline for `(component, viewport)` stands.
    fn position(&self, component: &String, viewport: &String) -> (r: Option<usize>)
        ensures
            match r {
                Some(i) => i < self.entries@.len() && keyed(
                    self.entries@[i as int]@,
                    component@,
                    viewport@,
                ) && forall|j: int|
                    i < j < self.entries@.len() ==> !keyed(
                        #[trigger] fingerprint_views(self.entries@)[j],
                        component@,
                        viewport@,
                    ),
                None => forall|j: int|
                    0 <= j < self.entries@.len() ==> !keyed(
                        #[trigger] fingerprint_views(self.entries@)[j],
                        component@,
                        viewport@,
                    ),
            },
    {
        let mut i: usize = self.entries.len();
        while i > 0
            invariant
                i <= self.entries@.len(),
                forall|j: int|
                    i <= j < self.entries@.len() ==> !keyed(
                        #[trigger] fingerprint_views(self.entries@)[j],
                        component@,
                        viewport@,
                    ),
            decreases i,
        {
            let e = &self.entries[i - 1];
            if e.component == *component && e.viewport == *viewport {
                return Some(i - 1);
            }
            assert(fingerprint_views(self.entries@)[i - 1] == self.entries@[i - 1]@);
            i = i - 1;
        }
        None
    }

    /// The baseline kept for `component` at `viewport`, if any.
    pub fn lookup(&self, component: &String, viewport: &String) -> (r: Option<&RegressionTest>)
        ensures
            ref_view(r) == self.baseline(component@, viewport@),
    {
        let ghost s = fingerprint_views(self.entries@);
        match self.position(component, viewport) {
            Some(i) => {
                proof {
                    baseline_at_last_match(s, i as int, component@, viewport@);
                }
                Some(&self.entries[i])
            },
            None => {
                proof {
                    no_key_no_baseline(s, component@, viewport@);
                }
                None
            },
        }
    }

    /// Makes `t` the baseline for its component and viewport.
    pub fn upsert(&mut self, t: RegressionTest)
        ensures
            forall|c: Seq<char>, v: Seq<char>| #[trigger]
                final(self).baseline(c, v) == if keyed(t@, c, v) {
                    Some(t@)
                } else {
                    old(self).baseline(c, v)
                },
    {
        let ghost s = fingerprint_views(self.entries@);
        let ghost tv = t@;
        match self.position(&t.component, &t.viewport) {
            Some(i) => {
                self.entries.set(i, t);
                proof {
                    assert(fingerprint_views(self.entries@) =~= s.update(i as int, tv));
                    assert forall|c: Seq<char>, v: Seq<char>| #[trigger]
                        self.baseline(c, v) == if keyed(tv, c, v) {
                            Some(tv)
                        } else {
                            old(self).baseline(c, v)
                        } by {
                        if keyed(tv, c, v) {
                            baseline_after_update_of_last_match(s, i as int, tv, c, v);
                        } else {
                            baseline_after_update_elsewhere(s, i as int, tv, c, v);
                        }
                    }
                }
            },
            None => {
                self.entries.push(t);
                proof {
                    assert(fingerprint_views(self.entries@) =~= s.push(tv));
                    assert forall|c: Seq<char>, v: Seq<char>| #[trigger]
                        self.baseline(c, v) == if keyed(tv, c, v) {
                            Some(tv)
                        } else {
                            old(self).baseline(c, v)
                        } by {
                        assert(s.push(tv).drop_last() =~= s);
                    }
                }
            },
        }
    }

    /// Classifies `current` against the baseline kept for its component and
    /// viewport; where there was none, `current` becomes it.
    pub fn check(&mut self, current: RegressionTest) -> (r: RegressionTestResult)
        ensures
            r.status == status_of(
                current@,
                old(self).baseline(current@.component, current@.viewport),
            ),
            opt_view(r.current_test) == Some(current@),
            opt_view(r.expected_test) == old(self).baseline(
                current@.component,
                current@.viewport,
            ),
            forall|c: Seq<char>, v: Seq<char>| #[trigger]
                final(self).baseline(c, v) == if keyed(current@, c, v) && r.status
                    == RegressionTestStatus::Created {
                    Some(current@)
                } else {
                    old(self).baseline(c, v)
                },
    {
        let keep = current.duplicate();
        let r = {
            let base = self.lookup(&current.component, &current.viewport);
            classify(current, base)
        };
        if r.status == RegressionTestStatus::Created {
            self.upsert(keep);
        }
        r
    }
}

/// Classification is a total state machine over the baseline: no baseline
/// gives `Created`; a baseline with the same three hashes gives `Passed`;
/// one that differs in any single hash gives `Failed`.
pub proof fn classification_laws(current: FingerprintView, baseline: FingerprintView)
    ensures
        status_of(current, None) == RegressionTestStatus::Created,
        hashes_match(current, baseline) ==> status_of(current, Some(baseline))
            == RegressionTestStatus::Passed,
        current.dom_hash != baseline.dom_hash ==> status_of(current, Some(baseline))
            == RegressionTestStatus::Failed,
        current.style_hash != baseline.style_hash ==> status_of(current, Some(baseline))
            == RegressionTestStatus::Failed,
        current.visual_hash != baseline.visual_hash ==> status_of(current, Some(baseline))
            == RegressionTestStatus::Failed,
        status_of(current, Some(baseline)) != RegressionTestStatus::Skipped,
{
}

} // verus!
