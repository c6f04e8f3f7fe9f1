//! Tally of a batch's outcomes for the final report.
use vstd::prelude::*;
use crate::error::DownloadError;

verus! {

/// Outcome of one track, by its display name: `Ok(true)` downloaded,
/// `Ok(false)` skipped as already present, `Err` failed.
pub type TrackResult = (String, Result<bool, DownloadError>);

/// Tracks of `s` with this outcome.
pub open spec fn count_ok(s: Seq<TrackResult>, downloaded: bool) -> nat
    decreases s.len(),
{
    if s.len() == 0 {
        0
    } else {
        (if s[0].1 == Ok::<bool, DownloadError>(downloaded) { 1nat } else { 0nat }) + count_ok(
            s.drop_first(),
            downloaded,
        )
    }
}

/// The failed tracks of `s` with their errors, in order.
pub open spec fn failures_of(s: Seq<TrackResult>) -> Seq<(String, DownloadError)>
    decreases s.len(),
{
    if s.len() == 0 {
        Seq::empty()
    } else {
        let rest = failures_of(s.drop_first());
        match s[0].1 {
            Err(e) => seq![(s[0].0, e)] + rest,
            Ok(_) => rest,
        }
    }
}

proof fn lemma_count_bounded(s: Seq<TrackResult>, downloaded: bool)
    ensures
        count_ok(s, downloaded) <= s.len(),
    decreases s.len(),
{
    if s.len() > 0 {
        lemma_count_bounded(s.drop_first(), downloaded);
    }
}

proof fn lemma_remove_one(t: Seq<TrackResult>, j: int, downloaded: bool)
    requires
        0 <= j < t.len(),
    ensures
        count_ok(t, downloaded) == count_ok(t.remove(j), downloaded) + (if t[j].1 == Ok::<
            bool,
            DownloadError,
        >(downloaded) {
            1nat
        } else {
            0nat
        }),
        failures_of(t).len() == failures_of(t.remove(j)).len() + (if t[j].1 is Err {
            1nat
        } else {
            0nat
        }),
    decreases j,
{
    if j == 0 {
        assert(t.remove(0) == t.drop_first());
    } else {
        lemma_remove_one(t.drop_first(), j - 1, downloaded);
        assert(t.remove(j).drop_first() == t.drop_first().remove(j - 1));
        assert(t.remove(j)[0] == t[0]);
    }
}

/// The totals of a batch do not depend on the order in which its outcomes
/// arrive: any two orders of the same outcomes count as many downloaded,
/// skipped and failed tracks.
pub proof fn lemma_totals_ignore_order(s: Seq<TrackResult>, t: Seq<TrackResult>)
    requires
        s.to_multiset() == t.to_multiset(),
    ensures
        count_ok(s, true) == count_ok(t, true),
        count_ok(s, false) == count_ok(t, false),
        failures_of(s).len() == failures_of(t).len(),
    decreases s.len(),
{
    broadcast use vstd::seq_lib::to_multiset_len, vstd::seq_lib::to_multiset_contains,
        vstd::seq_lib::to_multiset_remove;

    if s.len() == 0 {
        assert(t.to_multiset().len() == 0);
        assert(t.len() == 0);
    } else {
        let x = s[0];
        assert(s.contains(x));
        assert(s.to_multiset().count(x) > 0);
        assert(t.contains(x));
        let j = choose|j: int| 0 <= j < t.len() && t[j] == x;
        assert(s.drop_first() == s.remove(0));
        assert(s.remove(0).to_multiset() == s.to_multiset().remove(x));
        assert(t.remove(j).to_multiset() == t.to_multiset().remove(x));
        lemma_totals_ignore_order(s.drop_first(), t.remove(j));
        lemma_remove_one(t, j, true);
        lemma_remove_one(t, j, false);
    }
}

pub struct DownloadSummary {
    pub downloaded: usize,
    pub skipped: usize,
    pub failed: Vec<(String, DownloadError)>,
}

impl DownloadSummary {
    pub fn new() -> (r: Self)
        ensures
            r.downloaded == 0,
            r.skipped == 0,
            r.failed@ == Seq::<(String, DownloadError)>::empty(),
    {
        DownloadSummary { downloaded: 0, skipped: 0, failed: Vec::new() }
    }

    /// Counts the downloaded and skipped tracks and lists the failed ones.
    pub fn from_results(results: Vec<TrackResult>) -> (r: Self)
        ensures
            r.downloaded == count_ok(results@, true),
            r.skipped == count_ok(results@, false),
            r.failed@ == failures_of(results@),
    {
        let ghost all = results@;
        let total: usize = results.len();
        let mut results = results;
        let mut summary = DownloadSummary::new();
        let ghost mut k: int = 0;
        proof {
            lemma_count_bounded(all, true);
            lemma_count_bounded(all, false);
            assert(all.subrange(0, all.len() as int) == all);
        }
        while results.len() > 0
            invariant
                0 <= k <= all.len(),
                results@ == all.subrange(k, all.len() as int),
                summary.downloaded + count_ok(results@, true) == count_ok(all, true),
                summary.skipped + count_ok(results@, false) == count_ok(all, false),
                failures_of(all) == summary.failed@ + failures_of(results@),
                count_ok(all, true) <= all.len(),
                count_ok(all, false) <= all.len(),
                all.len() == total,
            decreases results@.len(),
        {
            proof {
                assert(results@.drop_first() == results@.remove(0));
            }
            let (name, result) = results.remove(0);
            let ghost before = summary.failed@;
            match result {
                Ok(true) => summary.downloaded = summary.downloaded + 1,
                Ok(false) => summary.skipped = summary.skipped + 1,
                Err(e) => {
                    summary.failed.push((name, e));
                    assert(summary.failed@ == before + seq![summary.failed@.last()]);
                },
            }
            proof {
                k = k + 1;
                assert(results@ == all.subrange(k, all.len() as int));
            }
        }
        summary
    }
}

} // verus!
