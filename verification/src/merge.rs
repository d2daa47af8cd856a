//! Per-file results and their reduction: each file-processing unit returns its
//! own outcome — entities, or a failure with its reason — and a separate merge
//! step folds the outcomes into the two output buckets. A failed file
//! contributes nothing and never hinders its siblings.

use vstd::prelude::*;
use crate::model::{entity_views, CodeEntity, CodeEntityView};

verus! {

/// What one file contributed: its entities, or the reason it was skipped
/// (unreadable, or its text failed to parse).
pub enum FileOutcome {
    Extracted { functions: Vec<CodeEntity>, structs: Vec<CodeEntity> },
    Failed { file_path: String, reason: String },
}

pub ghost enum FileOutcomeView {
    Extracted { functions: Seq<CodeEntityView>, structs: Seq<CodeEntityView> },
    Failed { file_path: Seq<char>, reason: Seq<char> },
}

impl View for FileOutcome {
    type V = FileOutcomeView;

    open spec fn view(&self) -> FileOutcomeView {
        match self {
            FileOutcome::Extracted { functions, structs } => FileOutcomeView::Extracted {
                functions: entity_views(functions@),
                structs: entity_views(structs@),
            },
            FileOutcome::Failed { file_path, reason } => FileOutcomeView::Failed {
                file_path: file_path@,
                reason: reason@,
            },
        }
    }
}

/// The views of a sequence of outcomes.
pub open spec fn outcome_views(s: Seq<FileOutcome>) -> Seq<FileOutcomeView> {
    s.map_values(|o: FileOutcome| o@)
}

/// The callable entities of every successful outcome, in order.
pub open spec fn merged_functions(outcomes: Seq<FileOutcomeView>) -> Seq<CodeEntityView>
    decreases outcomes.len(),
{
    if outcomes.len() == 0 {
        Seq::empty()
    } else {
        merged_functions(outcomes.drop_last()) + match outcomes.last() {
            FileOutcomeView::Extracted { functions, structs } => functions,
            FileOutcomeView::Failed { .. } => Seq::empty(),
        }
    }
}

/// The non-callable entities of every successful outcome, in order.
pub open spec fn merged_structs(outcomes: Seq<FileOutcomeView>) -> Seq<CodeEntityView>
    decreases outcomes.len(),
{
    if outcomes.len() == 0 {
        Seq::empty()
    } else {
        merged_structs(outcomes.drop_last()) + match outcomes.last() {
            FileOutcomeView::Extracted { functions, structs } => structs,
            FileOutcomeView::Failed { .. } => Seq::empty(),
        }
    }
}

/// Fold the per-file outcomes into the two output buckets, in file order:
/// every entity of every successful file, nothing from a failed one.
pub fn merge_results(outcomes: Vec<FileOutcome>) -> (r: (Vec<CodeEntity>, Vec<CodeEntity>))
    ensures
        entity_views(r.0@) == merged_functions(outcome_views(outcomes@)),
        entity_views(r.1@) == merged_structs(outcome_views(outcomes@)),
{
    let ghost ov = outcome_views(outcomes@);
    let mut functions: Vec<CodeEntity> = Vec::new();
    let mut structs: Vec<CodeEntity> = Vec::new();
    proof {
        assert(ov.take(0) =~= Seq::<FileOutcomeView>::empty());
        assert(entity_views(functions@) =~= Seq::<CodeEntityView>::empty());
        assert(entity_views(structs@) =~= Seq::<CodeEntityView>::empty());
    }
    let mut outcomes = outcomes;
    let total: usize = outcomes.len();
    proof {
        assert(ov.skip(0) =~= ov);
        assert(ov.len() == total);
    }
    let mut i: usize = 0;
    while outcomes.len() > 0
        invariant
            i + outcomes@.len() == ov.len(),
            ov.len() <= usize::MAX,
            outcome_views(outcomes@) == ov.skip(i as int),
            entity_views(functions@) == merged_functions(ov.take(i as int)),
            entity_views(structs@) == merged_structs(ov.take(i as int)),
        decreases outcomes@.len(),
    {
        let ghost pre = outcomes@;
        proof {
            assert(outcome_views(pre)[0] == pre[0]@);
            assert(pre[0]@ == ov[i as int]);
        }
        let outcome = outcomes.remove(0);
        match outcome {
            FileOutcome::Extracted { functions: mut f, structs: mut s } => {
                functions.append(&mut f);
                structs.append(&mut s);
            },
            FileOutcome::Failed { .. } => {
            },
        }
        proof {
            assert forall|j: int| 0 <= j < outcomes@.len() implies #[trigger] outcome_views(
                outcomes@,
            )[j] == ov.skip(i as int + 1)[j] by {
                assert(outcomes@[j] == pre[j + 1]);
                assert(outcome_views(pre)[j + 1] == pre[j + 1]@);
                assert(ov.skip(i as int)[j + 1] == ov[i as int + 1 + j]);
            }
            assert(outcome_views(outcomes@) =~= ov.skip(i as int + 1));
            assert(ov.take(i as int + 1).drop_last() =~= ov.take(i as int));
            assert(ov.take(i as int + 1).last() == ov[i as int]);
            assert(entity_views(functions@) =~= merged_functions(ov.take(i as int + 1)));
            assert(entity_views(structs@) =~= merged_structs(ov.take(i as int + 1)));
        }
        i = i + 1;
    }
    proof {
        assert(ov.take(ov.len() as int) =~= ov);
    }
    (functions, structs)
}

/// Law: a failed file is isolated — it contributes no entity, and removing
/// its outcome from a run leaves the merged streams unchanged, so the
/// entities of every sibling file still appear exactly as without it.
pub proof fn lemma_failed_file_isolated(outcomes: Seq<FileOutcomeView>, i: int)
    requires
        0 <= i < outcomes.len(),
        outcomes[i] is Failed,
    ensures
        merged_functions(outcomes) == merged_functions(outcomes.remove(i)),
        merged_structs(outcomes) == merged_structs(outcomes.remove(i)),
    decreases outcomes.len(),
{
    if i == outcomes.len() - 1 {
        assert(outcomes.remove(i) =~= outcomes.drop_last());
        assert(merged_functions(outcomes) =~= merged_functions(outcomes.drop_last()));
        assert(merged_structs(outcomes) =~= merged_structs(outcomes.drop_last()));
    } else {
        assert(outcomes.drop_last()[i] == outcomes[i]);
        lemma_failed_file_isolated(outcomes.drop_last(), i);
        assert(outcomes.remove(i).drop_last() =~= outcomes.drop_last().remove(i));
        assert(outcomes.remove(i).last() == outcomes.last());
        assert(merged_functions(outcomes) =~= merged_functions(outcomes.remove(i)));
        assert(merged_structs(outcomes) =~= merged_structs(outcomes.remove(i)));
    }
}

} // verus!
