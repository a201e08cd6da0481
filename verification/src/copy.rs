//! Planning the recursive copy of the vendored source tree: which entries of
//! a directory listing are taken, and how. Version-control metadata is left
//! out, and a file is always replaced whole at its destination, never merged.

use vstd::prelude::*;
use vstd::string::StringExecFns;

verus! {

/// One entry of a directory listing, as the caller reads it.
pub struct DirEntry {
    pub name: String,
    pub is_dir: bool,
}

/// The mathematical image of a [`DirEntry`].
#[verifier::ext_equal]
pub struct EntryModel {
    pub name: Seq<char>,
    pub is_dir: bool,
}

impl View for DirEntry {
    type V = EntryModel;

    open spec fn view(&self) -> EntryModel {
        EntryModel { name: self.name@, is_dir: self.is_dir }
    }
}

impl DeepView for DirEntry {
    type V = EntryModel;

    open spec fn deep_view(&self) -> EntryModel {
        self@
    }
}

/// What the caller does for one kept entry of a directory listing.
pub enum CopyStep {
    /// Create the directory at the destination if needed and copy its
    /// contents recursively, by a plan of their own.
    EnterDir { name: String },
    /// Remove any file already at the destination, then copy this one: the
    /// destination is replaced, never merged.
    OverwriteFile { name: String },
}

/// The mathematical image of a [`CopyStep`].
#[verifier::ext_equal]
pub enum CopyStepModel {
    EnterDir { name: Seq<char> },
    OverwriteFile { name: Seq<char> },
}

impl View for CopyStep {
    type V = CopyStepModel;

    open spec fn view(&self) -> CopyStepModel {
        match self {
            CopyStep::EnterDir { name } => CopyStepModel::EnterDir { name: name@ },
            CopyStep::OverwriteFile { name } => CopyStepModel::OverwriteFile { name: name@ },
        }
    }
}

impl DeepView for CopyStep {
    type V = CopyStepModel;

    open spec fn deep_view(&self) -> CopyStepModel {
        self@
    }
}

/// The name a copy step works on.
pub open spec fn copy_step_name(s: CopyStepModel) -> Seq<char> {
    match s {
        CopyStepModel::EnterDir { name } => name,
        CopyStepModel::OverwriteFile { name } => name,
    }
}

/// The name of the version-control metadata directory that is never copied.
pub open spec fn vcs_metadata_name() -> Seq<char> {
    ".git"@
}

/// The steps one listing entry contributes: none for the version-control
/// metadata directory, a recursive descent for any other directory, and an
/// overwriting copy for any other file.
pub open spec fn copy_steps_for(e: EntryModel) -> Seq<CopyStepModel> {
    if e.name == vcs_metadata_name() {
        Seq::empty()
    } else if e.is_dir {
        seq![CopyStepModel::EnterDir { name: e.name }]
    } else {
        seq![CopyStepModel::OverwriteFile { name: e.name }]
    }
}

/// The copy plan for a whole directory listing, in listing order.
pub open spec fn copy_plan(es: Seq<EntryModel>) -> Seq<CopyStepModel>
    decreases es.len(),
{
    if es.len() == 0 {
        Seq::empty()
    } else {
        copy_plan(es.drop_last()) + copy_steps_for(es.last())
    }
}

/// Turns a directory listing into the plan of copy steps for it.
pub fn plan_copy(entries: &Vec<DirEntry>) -> (r: Vec<CopyStep>)
    ensures
        r.deep_view() == copy_plan(entries.deep_view()),
{
    let mut r: Vec<CopyStep> = Vec::new();
    let mut i: usize = 0;
    while i < entries.len()
        invariant
            i <= entries.len(),
            r.deep_view() == copy_plan(entries.deep_view().take(i as int)),
        decreases entries.len() - i,
    {
        let keep = !(entries[i].name == ".git".to_owned());
        if keep {
            if entries[i].is_dir {
                r.push(CopyStep::EnterDir { name: entries[i].name.clone() });
            } else {
                r.push(CopyStep::OverwriteFile { name: entries[i].name.clone() });
            }
        }
        proof {
            let pre = entries.deep_view().take(i as int);
            let post = entries.deep_view().take(i + 1);
            assert(post.drop_last() =~~= pre);
            assert(post.last() == entries.deep_view()[i as int]);
            assert(r.deep_view() =~~= copy_plan(post));
        }
        i += 1;
    }
    proof {
        assert(entries.deep_view().take(entries.len() as int) =~~= entries.deep_view());
    }
    r
}

/// No step of a copy plan ever touches the version-control metadata
/// directory: the copy excludes it at every level of the tree.
pub proof fn lemma_copy_plan_excludes_vcs(es: Seq<EntryModel>)
    ensures
        forall|i: int|
            0 <= i < copy_plan(es).len() ==> copy_step_name(
                #[trigger] copy_plan(es)[i],
            ) != vcs_metadata_name(),
    decreases es.len(),
{
    if es.len() > 0 {
        lemma_copy_plan_excludes_vcs(es.drop_last());
        let head = copy_plan(es.drop_last());
        let tail = copy_steps_for(es.last());
        assert forall|i: int| 0 <= i < copy_plan(es).len() implies copy_step_name(
            #[trigger] copy_plan(es)[i],
        ) != vcs_metadata_name() by {
            if i < head.len() {
                assert(copy_plan(es)[i] == head[i]);
            } else {
                assert(copy_plan(es)[i] == tail[i - head.len()]);
            }
        }
    }
}

/// Every listing entry other than the version-control metadata directory is
/// copied: the plan holds its step, in listing order.
pub proof fn lemma_copy_plan_is_complete(es: Seq<EntryModel>, j: int)
    requires
        0 <= j < es.len(),
        es[j].name != vcs_metadata_name(),
    ensures
        exists|i: int|
            0 <= i < copy_plan(es).len() && #[trigger] copy_plan(es)[i] == copy_steps_for(es[j])[0],
    decreases es.len(),
{
    if j == es.len() - 1 {
        assert(es.last() == es[j]);
        let i = copy_plan(es.drop_last()).len() as int;
        assert(copy_plan(es)[i] == copy_steps_for(es[j])[0]);
    } else {
        lemma_copy_plan_is_complete(es.drop_last(), j);
        let i0 = choose|i: int|
            0 <= i < copy_plan(es.drop_last()).len() && #[trigger] copy_plan(es.drop_last())[i]
                == copy_steps_for(es.drop_last()[j])[0];
        assert(es.drop_last()[j] == es[j]);
        assert(copy_plan(es)[i0] == copy_steps_for(es[j])[0]);
    }
}

} // verus!
