//! Choosing among the candidates that a query returned: the one with the
//! greatest version wins.

use crate::version::{
    lemma_not_after_transitive, lemma_precedes_asymmetric, lemma_precedes_irreflexive,
    lemma_precedes_total, same_precedence, version_precedes, Version, VersionModel,
};
use vstd::prelude::*;

verus! {

/// What a query returns for one candidate: its name and its version.
#[derive(Debug, Clone)]
pub struct PackageSummary {
    pub name: String,
    pub version: Version,
}

/// What a [`PackageSummary`] stands for.
pub struct PackageSummaryModel {
    pub name: Seq<char>,
    pub version: VersionModel,
}

impl View for PackageSummary {
    type V = PackageSummaryModel;

    open spec fn view(&self) -> PackageSummaryModel {
        PackageSummaryModel { name: self.name@, version: self.version@ }
    }
}

impl DeepView for PackageSummary {
    type V = PackageSummaryModel;

    open spec fn deep_view(&self) -> PackageSummaryModel {
        self@
    }
}

/// Candidate `i` is the one to take: no candidate has a greater version, and
/// every candidate listed after it has a strictly smaller one. Among several
/// candidates of the greatest precedence this is the last.
pub open spec fn is_latest(candidates: Seq<PackageSummaryModel>, i: int) -> bool {
    &&& 0 <= i < candidates.len()
    &&& forall|j: int|
        0 <= j < candidates.len() ==> !version_precedes(
            candidates[i].version,
            #[trigger] candidates[j].version,
        )
    &&& forall|j: int|
        i < j < candidates.len() ==> version_precedes(
            #[trigger] candidates[j].version,
            candidates[i].version,
        )
}

/// The position of the candidate to take, or `None` where there is no
/// candidate at all.
pub open spec fn latest(candidates: Seq<PackageSummaryModel>) -> Option<int> {
    if candidates.len() == 0 {
        None
    } else {
        Some(choose|i: int| is_latest(candidates, i))
    }
}

/// No two candidates have the same precedence.
pub open spec fn distinct_versions(candidates: Seq<PackageSummaryModel>) -> bool {
    forall|j: int, k: int|
        0 <= j < candidates.len() && 0 <= k < candidates.len() && j != k ==> !same_precedence(
            #[trigger] candidates[j].version,
            #[trigger] candidates[k].version,
        )
}

/// At most one position is the one to take.
pub proof fn lemma_latest_unique(candidates: Seq<PackageSummaryModel>, i: int, k: int)
    requires
        is_latest(candidates, i),
        is_latest(candidates, k),
    ensures
        i == k,
{
    if i < k {
        assert(!version_precedes(candidates[k].version, candidates[i].version));
    } else if k < i {
        assert(!version_precedes(candidates[i].version, candidates[k].version));
    }
}

/// The version of candidate `k` is strictly greater than that of every
/// other candidate.
pub open spec fn strictly_greatest(candidates: Seq<PackageSummaryModel>, k: int) -> bool {
    &&& 0 <= k < candidates.len()
    &&& forall|j: int|
        0 <= j < candidates.len() && j != k ==> version_precedes(
            #[trigger] candidates[j].version,
            candidates[k].version,
        )
}

proof fn lemma_latest_of_prefix(candidates: Seq<PackageSummaryModel>, n: int) -> (best: int)
    requires
        1 <= n <= candidates.len(),
    ensures
        0 <= best < n,
        forall|j: int|
            0 <= j < n ==> !version_precedes(
                candidates[best].version,
                #[trigger] candidates[j].version,
            ),
        forall|j: int|
            best < j < n ==> version_precedes(
                #[trigger] candidates[j].version,
                candidates[best].version,
            ),
    decreases n,
{
    if n == 1 {
        lemma_precedes_irreflexive(candidates[0].version, candidates[0].version);
        0
    } else {
        let before = lemma_latest_of_prefix(candidates, n - 1);
        let last = candidates[n - 1].version;
        if version_precedes(last, candidates[before].version) {
            lemma_precedes_asymmetric(last, candidates[before].version);
            before
        } else {
            assert forall|j: int| 0 <= j < n implies !version_precedes(
                last,
                #[trigger] candidates[j].version,
            ) by {
                if j < n - 1 {
                    lemma_not_after_transitive(
                        candidates[j].version,
                        candidates[before].version,
                        last,
                    );
                } else {
                    lemma_precedes_irreflexive(last, last);
                }
            }
            n - 1
        }
    }
}

/// Every list with at least one candidate has a candidate to take.
pub proof fn lemma_latest_exists(candidates: Seq<PackageSummaryModel>)
    requires
        candidates.len() > 0,
    ensures
        latest(candidates) matches Some(i) && is_latest(candidates, i),
{
    let best = lemma_latest_of_prefix(candidates, candidates.len() as int);
    assert(is_latest(candidates, best));
}

/// Among candidates of pairwise different precedence, the one that is taken
/// has a version strictly greater than every other's, and it is the only
/// such candidate. Of no candidates none is taken.
pub proof fn lemma_latest_is_the_greatest(candidates: Seq<PackageSummaryModel>)
    requires
        distinct_versions(candidates),
    ensures
        candidates.len() == 0 ==> latest(candidates) is None,
        candidates.len() > 0 ==> (latest(candidates) matches Some(i) && strictly_greatest(
            candidates,
            i,
        ) && forall|k: int| #[trigger] strictly_greatest(candidates, k) ==> k == i),
{
    if candidates.len() > 0 {
        lemma_latest_exists(candidates);
        let i = latest(candidates).unwrap();
        assert forall|j: int| 0 <= j < candidates.len() && j != i implies version_precedes(
            #[trigger] candidates[j].version,
            candidates[i].version,
        ) by {
            lemma_precedes_total(candidates[j].version, candidates[i].version);
        }
        assert forall|k: int| #[trigger] strictly_greatest(candidates, k) implies k == i by {
            if k != i {
                assert(!version_precedes(candidates[i].version, candidates[k].version));
            }
        }
    }
}

/// Picks the candidate with the greatest version; of several with the
/// greatest precedence, the last. Returns its position, or `None` where the
/// list is empty.
pub fn select_max(candidates: &Vec<PackageSummary>) -> (chosen: Option<usize>)
    ensures
        chosen is Some <==> candidates.len() > 0,
        chosen matches Some(i) ==> (latest(candidates.deep_view()) == Some(i as int) && is_latest(
            candidates.deep_view(),
            i as int,
        )),
{
    let ghost models = candidates.deep_view();
    if candidates.len() == 0 {
        return None;
    }
    let mut best: usize = 0;
    let mut i: usize = 1;
    proof {
        lemma_precedes_irreflexive(models[0].version, models[0].version);
    }
    while i < candidates.len()
        invariant
            models == candidates.deep_view(),
            1 <= i <= candidates.len(),
            best < i,
            forall|j: int|
                0 <= j < i ==> !version_precedes(models[best as int].version, #[trigger] models[j].version),
            forall|j: int|
                best < j < i ==> version_precedes(#[trigger] models[j].version, models[best as int].version),
        decreases candidates.len() - i,
    {
        if !candidates[i].version.precedes(&candidates[best].version) {
            proof {
                let top = models[i as int].version;
                let old_top = models[best as int].version;
                assert forall|j: int| 0 <= j < i + 1 implies !version_precedes(
                    top,
                    #[trigger] models[j].version,
                ) by {
                    if j < i {
                        lemma_not_after_transitive(models[j].version, old_top, top);
                    } else {
                        lemma_precedes_irreflexive(top, top);
                    }
                }
            }
            best = i;
        } else {
            proof {
                lemma_precedes_asymmetric(models[i as int].version, models[best as int].version);
            }
        }
        i += 1;
    }
    proof {
        let picked = latest(models).unwrap();
        lemma_latest_unique(models, best as int, picked);
    }
    Some(best)
}

} // verus!
