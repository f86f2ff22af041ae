use vstd::prelude::*;

use crate::table::Table;
use crate::text::{
    append_names, contains_name, distinct, lemma_concat_contains, lemma_distinct,
    lemma_distinct_prefix, lemma_filter_agree, listed, push_name,
};

verus! {

/// The HCCs that `hcc` suppresses: its list in the hierarchy, or nothing
/// where the hierarchy has no entry for it.
pub open spec fn inferiors(hierarchy: Map<Seq<char>, Seq<Seq<char>>>, hcc: Seq<char>) -> Seq<
    Seq<char>,
> {
    listed(hierarchy, hcc)
}

/// The HCCs marked as suppressed once the first `n` candidates have been
/// walked: the inferiors of every candidate among them that was not itself
/// marked when its turn came.
pub open spec fn suppressed(
    hierarchy: Map<Seq<char>, Seq<Seq<char>>>,
    candidates: Seq<Seq<char>>,
    n: int,
) -> Set<Seq<char>>
    decreases n,
{
    if n <= 0 {
        Set::empty()
    } else {
        let before = suppressed(hierarchy, candidates, n - 1);
        let hcc = candidates[n - 1];
        if before.contains(hcc) {
            before
        } else {
            before.union(inferiors(hierarchy, hcc).to_set())
        }
    }
}

/// The HCCs marked as suppressed once all candidates have been walked.
pub open spec fn marked(
    hierarchy: Map<Seq<char>, Seq<Seq<char>>>,
    candidates: Seq<Seq<char>>,
) -> Set<Seq<char>> {
    suppressed(hierarchy, candidates, candidates.len() as int)
}

/// The test for the HCCs that are not marked once all candidates have
/// been walked.
pub open spec fn escapes(
    hierarchy: Map<Seq<char>, Seq<Seq<char>>>,
    candidates: Seq<Seq<char>>,
) -> spec_fn(Seq<char>) -> bool {
    |hcc: Seq<char>| !marked(hierarchy, candidates).contains(hcc)
}

/// The candidates that survive the hierarchy: those that are not marked as
/// suppressed once all candidates have been walked, each once, in the order
/// of their first appearance among the candidates.
pub open spec fn survivors(
    hierarchy: Map<Seq<char>, Seq<Seq<char>>>,
    candidates: Seq<Seq<char>>,
) -> Seq<Seq<char>> {
    distinct(candidates.filter(escapes(hierarchy, candidates)))
}

/// What is marked stays marked as the walk goes on.
pub proof fn lemma_suppressed_grows(
    hierarchy: Map<Seq<char>, Seq<Seq<char>>>,
    candidates: Seq<Seq<char>>,
    m: int,
    n: int,
)
    requires
        m <= n,
    ensures
        suppressed(hierarchy, candidates, m).subset_of(suppressed(hierarchy, candidates, n)),
    decreases n - m,
{
    if m < n {
        lemma_suppressed_grows(hierarchy, candidates, m, n - 1);
    }
}

/// What is marked among the first `n` candidates does not depend on the
/// candidates that follow them.
pub proof fn lemma_walk_looks_back_only(
    hierarchy: Map<Seq<char>, Seq<Seq<char>>>,
    candidates: Seq<Seq<char>>,
    more: Seq<Seq<char>>,
    n: int,
)
    requires
        n <= candidates.len(),
    ensures
        suppressed(hierarchy, candidates + more, n) == suppressed(hierarchy, candidates, n),
    decreases n,
{
    if n > 0 {
        lemma_walk_looks_back_only(hierarchy, candidates, more, n - 1);
        assert((candidates + more)[n - 1] == candidates[n - 1]);
    }
}

/// A candidate that is not marked at the end has all its inferiors marked.
pub proof fn lemma_unmarked_candidate_marks_its_inferiors(
    hierarchy: Map<Seq<char>, Seq<Seq<char>>>,
    candidates: Seq<Seq<char>>,
    p: int,
)
    requires
        0 <= p < candidates.len(),
        !marked(hierarchy, candidates).contains(candidates[p]),
    ensures
        forall|hcc: Seq<char>|
            inferiors(hierarchy, candidates[p]).contains(hcc) ==> #[trigger] marked(
                hierarchy,
                candidates,
            ).contains(hcc),
{
    lemma_suppressed_grows(hierarchy, candidates, p, candidates.len() as int);
    lemma_suppressed_grows(hierarchy, candidates, p + 1, candidates.len() as int);
    assert forall|hcc: Seq<char>|
        inferiors(hierarchy, candidates[p]).contains(hcc) implies #[trigger] marked(
        hierarchy,
        candidates,
    ).contains(hcc) by {
        assert(inferiors(hierarchy, candidates[p]).to_set().contains(hcc));
        assert(suppressed(hierarchy, candidates, p + 1).contains(hcc));
    }
}

/// The survivors are the candidates that are not marked at the end, and no
/// HCC is a survivor twice.
pub proof fn lemma_survivors(
    hierarchy: Map<Seq<char>, Seq<Seq<char>>>,
    candidates: Seq<Seq<char>>,
)
    ensures
        forall|hcc: Seq<char>| #[trigger]
            survivors(hierarchy, candidates).contains(hcc) <==> (candidates.contains(hcc)
                && !marked(hierarchy, candidates).contains(hcc)),
        survivors(hierarchy, candidates).no_duplicates(),
{
    let test = escapes(hierarchy, candidates);
    let passed = candidates.filter(test);
    lemma_distinct(passed);
    assert forall|hcc: Seq<char>| passed.contains(hcc) <==> (candidates.contains(hcc) && test(
        hcc,
    )) by {
        if passed.contains(hcc) {
            let i = passed.index_of(hcc);
            candidates.lemma_filter_pred(test, i);
            candidates.lemma_filter_contains_rev(test, hcc);
        }
        if candidates.contains(hcc) && test(hcc) {
            let i = candidates.index_of(hcc);
            candidates.lemma_filter_contains(test, i);
        }
    }
}

/// Hierarchy dominance: no survivor is an inferior of a survivor, whatever
/// the hierarchy and whatever the order of the candidates.
pub proof fn lemma_hierarchy_dominance(
    hierarchy: Map<Seq<char>, Seq<Seq<char>>>,
    candidates: Seq<Seq<char>>,
)
    ensures
        forall|i: int, j: int|
            0 <= i < survivors(hierarchy, candidates).len() && 0 <= j < survivors(
                hierarchy,
                candidates,
            ).len() ==> !inferiors(hierarchy, #[trigger] survivors(hierarchy, candidates)[i]).contains(
                #[trigger] survivors(hierarchy, candidates)[j],
            ),
{
    let kept = survivors(hierarchy, candidates);
    lemma_survivors(hierarchy, candidates);
    assert forall|i: int, j: int| 0 <= i < kept.len() && 0 <= j < kept.len() implies !inferiors(
        hierarchy,
        #[trigger] kept[i],
    ).contains(#[trigger] kept[j]) by {
        assert(kept.contains(kept[i]));
        assert(kept.contains(kept[j]));
        assert(candidates.contains(kept[i]));
        let p = candidates.index_of(kept[i]);
        lemma_unmarked_candidate_marks_its_inferiors(hierarchy, candidates, p);
    }
}

/// What is marked after more candidates was marked before them or is an
/// inferior of one of them.
pub proof fn lemma_marks_of_more_candidates(
    hierarchy: Map<Seq<char>, Seq<Seq<char>>>,
    candidates: Seq<Seq<char>>,
    more: Seq<Seq<char>>,
    n: int,
)
    requires
        candidates.len() <= n <= candidates.len() + more.len(),
    ensures
        forall|hcc: Seq<char>| #[trigger]
            suppressed(hierarchy, candidates + more, n).contains(hcc) ==> marked(
                hierarchy,
                candidates,
            ).contains(hcc) || exists|k: int|
                0 <= k < more.len() && inferiors(hierarchy, #[trigger] more[k]).contains(hcc),
    decreases n,
{
    if n == candidates.len() {
        lemma_walk_looks_back_only(hierarchy, candidates, more, n);
    } else {
        lemma_marks_of_more_candidates(hierarchy, candidates, more, n - 1);
        let k = n - 1 - candidates.len();
        assert((candidates + more)[n - 1] == more[k]);
        assert forall|hcc: Seq<char>| #[trigger]
            suppressed(hierarchy, candidates + more, n).contains(hcc) implies marked(
            hierarchy,
            candidates,
        ).contains(hcc) || exists|k: int|
            0 <= k < more.len() && inferiors(hierarchy, #[trigger] more[k]).contains(hcc) by {
            if !suppressed(hierarchy, candidates + more, n - 1).contains(hcc) {
                assert(inferiors(hierarchy, more[k]).to_set().contains(hcc));
                assert(inferiors(hierarchy, more[k]).contains(hcc));
            }
        }
    }
}

/// More candidates at the end remove no survivor, provided that none of
/// them lists a survivor among its inferiors: the survivors then open the
/// list of the survivors of the longer list. (A candidate that lists a
/// survivor among its inferiors suppresses it, wherever it stands.)
pub proof fn lemma_more_candidates_keep_survivors(
    hierarchy: Map<Seq<char>, Seq<Seq<char>>>,
    candidates: Seq<Seq<char>>,
    more: Seq<Seq<char>>,
)
    requires
        forall|k: int, i: int|
            0 <= k < more.len() && 0 <= i < survivors(hierarchy, candidates).len() ==> !inferiors(
                hierarchy,
                #[trigger] more[k],
            ).contains(#[trigger] survivors(hierarchy, candidates)[i]),
    ensures
        survivors(hierarchy, candidates).is_prefix_of(survivors(hierarchy, candidates + more)),
{
    let longer = candidates + more;
    let kept = survivors(hierarchy, candidates);
    let test = escapes(hierarchy, candidates);
    let later = escapes(hierarchy, longer);
    lemma_survivors(hierarchy, candidates);
    lemma_marks_of_more_candidates(hierarchy, candidates, more, longer.len() as int);
    lemma_walk_looks_back_only(hierarchy, candidates, more, candidates.len() as int);
    lemma_suppressed_grows(hierarchy, longer, candidates.len() as int, longer.len() as int);
    assert forall|i: int| 0 <= i < candidates.len() implies test(#[trigger] candidates[i])
        == later(candidates[i]) by {
        let hcc = candidates[i];
        if test(hcc) && !later(hcc) {
            assert(candidates.contains(hcc));
            assert(kept.contains(hcc));
            let at = kept.index_of(hcc);
            assert(suppressed(hierarchy, longer, longer.len() as int).contains(hcc));
            let k = choose|k: int|
                0 <= k < more.len() && inferiors(hierarchy, #[trigger] more[k]).contains(hcc);
            assert(inferiors(hierarchy, more[k]).contains(kept[at]));
        }
    }
    lemma_filter_agree(candidates, test, later);
    Seq::filter_distributes_over_add(candidates, more, later);
    lemma_distinct_prefix(candidates.filter(later), more.filter(later));
}

/// Removes from a list of candidate HCCs those that another candidate
/// suppresses, and the repetitions. The candidates are walked in order; one
/// that is not marked as suppressed when its turn comes marks its inferiors.
/// The candidates that are not marked at the end survive, each once, in the
/// order of their first appearance.
pub fn _apply_hierarchy(
    model_hcc_hiers: &Table<Vec<String>>,
    patient_hcc_list: &Vec<String>,
) -> (kept: Vec<String>)
    ensures
        kept.deep_view() == survivors(model_hcc_hiers@, patient_hcc_list.deep_view()),
        forall|i: int, j: int|
            0 <= i < kept.len() && 0 <= j < kept.len() ==> !inferiors(
                model_hcc_hiers@,
                #[trigger] kept.deep_view()[i],
            ).contains(#[trigger] kept.deep_view()[j]),
        kept.deep_view().no_duplicates(),
{
    let ghost hierarchy = model_hcc_hiers@;
    let ghost candidates = patient_hcc_list.deep_view();
    let marks = marked_hccs(model_hcc_hiers, patient_hcc_list);
    let ghost test = escapes(hierarchy, candidates);
    let mut kept: Vec<String> = Vec::new();
    let mut i: usize = 0;
    proof {
        assert(candidates.subrange(0, 0) =~= Seq::<Seq<char>>::empty());
        assert(kept.deep_view() =~= distinct(candidates.subrange(0, 0).filter(test))) by {
            reveal(Seq::filter);
        }
    }
    while i < patient_hcc_list.len()
        invariant
            i <= patient_hcc_list.len(),
            hierarchy == model_hcc_hiers@,
            candidates == patient_hcc_list.deep_view(),
            test == escapes(hierarchy, candidates),
            marks.deep_view().to_set() == marked(hierarchy, candidates),
            kept.deep_view() == distinct(candidates.subrange(0, i as int).filter(test)),
        decreases patient_hcc_list.len() - i,
    {
        let hcc = &patient_hcc_list[i];
        proof {
            let walked = candidates.subrange(0, i as int);
            assert(candidates.subrange(0, i + 1) =~= walked.push(candidates[i as int]));
            walked.lemma_filter_push(candidates[i as int], test);
            assert(walked.filter(test).push(candidates[i as int]).drop_last() =~= walked.filter(
                test,
            ));
        }
        if !contains_name(&marks, hcc.as_str()) && !contains_name(&kept, hcc.as_str()) {
            push_name(&mut kept, hcc.clone());
        }
        i += 1;
    }
    proof {
        assert(candidates.subrange(0, i as int) =~= candidates);
        lemma_hierarchy_dominance(hierarchy, candidates);
        lemma_survivors(hierarchy, candidates);
    }
    kept
}

/// Walks the candidates in order and collects the HCCs that are marked as
/// suppressed: the inferiors of every candidate that is not itself marked
/// when its turn comes.
fn marked_hccs(
    model_hcc_hiers: &Table<Vec<String>>,
    patient_hcc_list: &Vec<String>,
) -> (marks: Vec<String>)
    ensures
        marks.deep_view().to_set() == marked(model_hcc_hiers@, patient_hcc_list.deep_view()),
{
    let ghost hierarchy = model_hcc_hiers@;
    let ghost candidates = patient_hcc_list.deep_view();
    let mut marks: Vec<String> = Vec::new();
    assert(marks.deep_view().to_set() =~= Set::<Seq<char>>::empty());
    let mut i: usize = 0;
    while i < patient_hcc_list.len()
        invariant
            i <= patient_hcc_list.len(),
            hierarchy == model_hcc_hiers@,
            candidates == patient_hcc_list.deep_view(),
            marks.deep_view().to_set() == suppressed(hierarchy, candidates, i as int),
        decreases patient_hcc_list.len() - i,
    {
        let hcc = &patient_hcc_list[i];
        assert(hcc@ == candidates[i as int]);
        let ghost marks_before = marks.deep_view();
        if !contains_name(&marks, hcc.as_str()) {
            assert(!marks_before.to_set().contains(hcc@));
            match model_hcc_hiers.get(hcc.as_str()) {
                Some(list) => {
                    append_names(&mut marks, list);
                    proof {
                        lemma_concat_contains(marks_before, list.deep_view());
                    }
                },
                None => {
                    assert(marks_before.to_set() =~= marks_before.to_set().union(
                        Seq::<Seq<char>>::empty().to_set(),
                    ));
                },
            }
        } else {
            assert(marks_before.to_set().contains(hcc@));
        }
        i += 1;
    }
    marks
}

} // verus!
