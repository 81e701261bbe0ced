//! Undoing a failed generation: the files it created and the workspace file as it
//! was before.
use vstd::prelude::*;

use crate::template_management::errors::AddArtifactError;
use crate::text::{concat, debug_list, debug_string_list, str_eq, views};

verus! {

/// Some entry of the list is `s`.
pub open spec fn listed(items: Seq<Seq<char>>, s: Seq<char>) -> bool {
    exists|i: int| 0 <= i < items.len() && items[i] == s
}

/// The files of `current` that are not in `baseline`, in order.
pub open spec fn created_files(current: Seq<Seq<char>>, baseline: Seq<Seq<char>>) -> Seq<Seq<char>>
    decreases current.len(),
{
    if current.len() == 0 {
        Seq::empty()
    } else if listed(baseline, current.last()) {
        created_files(current.drop_last(), baseline)
    } else {
        created_files(current.drop_last(), baseline).push(current.last())
    }
}

/// No file reported as created was there before the generation.
pub proof fn law_created_files_are_new(current: Seq<Seq<char>>, baseline: Seq<Seq<char>>)
    ensures
        forall|i: int|
            0 <= i < created_files(current, baseline).len() ==> !listed(
                baseline,
                #[trigger] created_files(current, baseline)[i],
            ),
    decreases current.len(),
{
    if current.len() > 0 {
        law_created_files_are_new(current.drop_last(), baseline);
        let rest = created_files(current.drop_last(), baseline);
        if !listed(baseline, current.last()) {
            assert forall|i: int| 0 <= i < rest.len() + 1 implies !listed(
                baseline,
                #[trigger] rest.push(current.last())[i],
            ) by {
                if i < rest.len() {
                    assert(rest.push(current.last())[i] == rest[i]);
                }
            }
        }
    }
}

/// Every file that is there now and was not there before the generation is
/// reported as created.
pub proof fn law_new_files_are_reported(current: Seq<Seq<char>>, baseline: Seq<Seq<char>>)
    ensures
        forall|i: int|
            0 <= i < current.len() && !listed(baseline, #[trigger] current[i]) ==> listed(
                created_files(current, baseline),
                current[i],
            ),
    decreases current.len(),
{
    if current.len() > 0 {
        let init = current.drop_last();
        law_new_files_are_reported(init, baseline);
        let rest = created_files(init, baseline);
        assert forall|i: int| 0 <= i < current.len() && !listed(baseline, #[trigger] current[i]) implies listed(
            created_files(current, baseline),
            current[i],
        ) by {
            if i < current.len() - 1 {
                assert(init[i] == current[i]);
                let j = choose|j: int| 0 <= j < rest.len() && rest[j] == init[i];
                if !listed(baseline, current.last()) {
                    assert(rest.push(current.last())[j] == rest[j]);
                }
            } else {
                let out = created_files(current, baseline);
                assert(out[out.len() - 1] == current.last());
            }
        }
    }
}

/// Tests whether `s` is an entry of the list.
fn is_listed(items: &Vec<String>, s: &str) -> (r: bool)
    ensures
        r == listed(views(items@), s@),
{
    let mut i: usize = 0;
    while i < items.len()
        invariant
            i <= items@.len(),
            forall|j: int| 0 <= j < i ==> views(items@)[j] != s@,
        decreases items@.len() - i,
    {
        if str_eq(items[i].as_str(), s) {
            assert(views(items@)[i as int] == s@);
            return true;
        }
        i = i + 1;
    }
    false
}

/// The files below an output directory before a generation, to tell apart the
/// files the generation creates.
#[derive(Debug)]
pub struct FileTracker {
    pub baseline_files: Vec<String>,
    pub output_root: String,
}

impl FileTracker {
    /// Tracks `output_root`, whose files before the generation are `baseline_files`.
    pub fn new(output_root: String, baseline_files: Vec<String>) -> (r: FileTracker)
        ensures
            r.baseline_files == baseline_files,
            r.output_root == output_root,
    {
        FileTracker { baseline_files, output_root }
    }

    /// The files created since tracking began, from the files below the output
    /// directory now; none when those could not be listed.
    pub fn get_created_files(&self, current: Result<Vec<String>, String>) -> (r: Vec<String>)
        ensures
            match current {
                Ok(files) => views(r@) == created_files(views(files@), views(self.baseline_files@)),
                Err(_) => r@.len() == 0,
            },
    {
        let files = match current {
            Ok(f) => f,
            Err(_) => {
                return Vec::new();
            },
        };
        let ghost all = views(files@);
        let mut out: Vec<String> = Vec::new();
        let mut i: usize = 0;
        while i < files.len()
            invariant
                i <= files@.len(),
                all == views(files@),
                views(out@) == created_files(all.take(i as int), views(self.baseline_files@)),
            decreases files@.len() - i,
        {
            assert(all.take(i + 1).drop_last() =~= all.take(i as int));
            if !is_listed(&self.baseline_files, files[i].as_str()) {
                let ghost before = out@;
                out.push(files[i].clone());
                assert(views(out@) =~= views(before).push(all[i as int]));
            }
            i = i + 1;
        }
        assert(all.take(files@.len() as int) =~= all);
        out
    }
}

/// The message when some created files could not be removed.
pub open spec fn rollback_message(leftovers: Seq<Seq<char>>) -> Seq<char> {
    "Rollback partially failed. Manual cleanup required for: "@ + debug_list(leftovers)
}

/// The outcome of removing the created files, from the files that could not be removed.
pub fn rollback_outcome(leftovers: &Vec<String>) -> (r: Result<(), AddArtifactError>)
    ensures
        leftovers@.len() == 0 ==> r is Ok,
        leftovers@.len() > 0 ==> (r matches Err(AddArtifactError::WorkspaceError(m)) && m@
            == rollback_message(views(leftovers@))),
{
    if leftovers.len() == 0 {
        Ok(())
    } else {
        let listed = debug_string_list(leftovers);
        Err(
            AddArtifactError::WorkspaceError(
                concat("Rollback partially failed. Manual cleanup required for: ", listed.as_str()),
            ),
        )
    }
}

/// The workspace file as it was before a generation, to restore it.
#[derive(Debug)]
pub struct YamlBackup {
    pub original_content: String,
    pub yaml_path: String,
}

impl YamlBackup {
    /// The error when the workspace file could not be read for the backup.
    pub fn backup_failed(reason: &str) -> (r: AddArtifactError)
        ensures
            r matches AddArtifactError::WorkspaceError(m) && m@ == "Failed to backup nfw.yaml: "@
                + reason@,
    {
        AddArtifactError::WorkspaceError(concat("Failed to backup nfw.yaml: ", reason))
    }

    /// The error when the backup could not be written back.
    pub fn restore_failed(reason: &str) -> (r: AddArtifactError)
        ensures
            r matches AddArtifactError::WorkspaceError(m) && m@
                == "Failed to restore nfw.yaml backup: "@ + reason@,
    {
        AddArtifactError::WorkspaceError(concat("Failed to restore nfw.yaml backup: ", reason))
    }
}

} // verus!
