//! Patching a fixture's metadata: which files, in which order, and what
//! becomes of each.
//!
//! Patching is a convenience, so nothing here is fatal. Each file is handled on
//! its own; a file that is missing, unreadable or not what it should be is
//! skipped, and the caller goes on with the next one. The reason for a skip is
//! a value that the caller drops on purpose.

use crate::binding_tests::{rewrite_binding_test, rewritten_test, BindingError};
use crate::command::{no_texts, push_text};
use crate::manifest::{
    patch_manifest_text, patch_subpackage_text, patched_text, ManifestError,
};
use vstd::prelude::*;

verus! {

/// What to do with one file of a fixture.
#[derive(Clone, Copy, Debug, PartialEq, Eq, Structural)]
pub enum FileWork {
    /// Patch the fixture's own package manifest.
    PatchManifest,
    /// Patch the manifest of a bundled package, if that package is private.
    PatchPrivateManifest,
    /// Rewrite the binding test for the local test framework.
    RewriteBindingTest,
    /// Delete the file, a stale lockfile, if it is there.
    Remove,
}

/// One file of a fixture and what to do with it.
#[derive(Debug, PartialEq, Eq)]
pub struct FileTask {
    /// The directory that holds the file: the fixture's own, or the one at
    /// this place in the caller's list of the directories directly below it.
    pub directory: Option<usize>,
    /// The file's path below that directory, one component after the other.
    pub path: Vec<String>,
    pub work: FileWork,
}

/// A task as a mathematical value.
pub struct TaskView {
    pub directory: Option<usize>,
    pub path: Seq<Seq<char>>,
    pub work: FileWork,
}

impl View for FileTask {
    type V = TaskView;

    open spec fn view(&self) -> TaskView {
        TaskView { directory: self.directory, path: self.path.deep_view(), work: self.work }
    }
}

/// The tasks of a list, each as a mathematical value.
pub open spec fn task_views(tasks: Seq<FileTask>) -> Seq<TaskView> {
    Seq::new(tasks.len(), |i: int| tasks[i]@)
}

/// Why a file is left as it is.
#[derive(Clone, Copy, Debug, PartialEq, Eq)]
pub enum Skip {
    Manifest(ManifestError),
    BindingTest(BindingError),
    /// The task writes nothing: the file is to be deleted.
    NothingToWrite,
}

/// The tasks on the fixture's own files: its manifest, its binding test, its
/// lockfile.
pub open spec fn root_tasks() -> Seq<TaskView> {
    seq![
        TaskView { directory: None, path: seq!["package.json"@], work: FileWork::PatchManifest },
        TaskView {
            directory: None,
            path: seq!["bindings"@, "node"@, "binding_test.js"@],
            work: FileWork::RewriteBindingTest,
        },
        TaskView { directory: None, path: seq!["package-lock.json"@], work: FileWork::Remove },
    ]
}

/// The tasks on one directory directly below the fixture's: the manifest in
/// it, patched if it is that of a private package, and the lockfile in it.
pub open spec fn subdirectory_tasks(directory: usize) -> Seq<TaskView> {
    seq![
        TaskView {
            directory: Some(directory),
            path: seq!["package.json"@],
            work: FileWork::PatchPrivateManifest,
        },
        TaskView {
            directory: Some(directory),
            path: seq!["package-lock.json"@],
            work: FileWork::Remove,
        },
    ]
}

/// The tasks on the first `count` directories directly below the fixture's,
/// directory by directory in the order of the caller's list. Directories
/// further down are not visited.
pub open spec fn bundled_tasks(count: usize) -> Seq<TaskView>
    decreases count,
{
    if count == 0 {
        Seq::empty()
    } else {
        bundled_tasks((count - 1) as usize) + subdirectory_tasks((count - 1) as usize)
    }
}

/// All tasks of the metadata patch for a fixture with `count` directories
/// directly below its own, in order.
pub open spec fn metadata_task_views(count: usize) -> Seq<TaskView> {
    root_tasks() + bundled_tasks(count)
}

/// What is written to a file: its new content, or the reason to leave it.
pub open spec fn new_content(work: FileWork, content: Seq<char>) -> Result<Seq<char>, Skip> {
    match work {
        FileWork::PatchManifest => match patched_text(content, false) {
            Ok(text) => Ok(text),
            Err(e) => Err(Skip::Manifest(e)),
        },
        FileWork::PatchPrivateManifest => match patched_text(content, true) {
            Ok(text) => Ok(text),
            Err(e) => Err(Skip::Manifest(e)),
        },
        FileWork::RewriteBindingTest => match rewritten_test(content) {
            Ok(text) => Ok(text),
            Err(e) => Err(Skip::BindingTest(e)),
        },
        FileWork::Remove => Err(Skip::NothingToWrite),
    }
}

/// The task list, spelled out: the three tasks on the fixture's own files, then
/// two per directory, in the order of the directories. No task reaches below a
/// directory directly under the fixture's.
pub proof fn law_tasks_stay_shallow(count: usize)
    ensures
        metadata_task_views(count).len() == 3 + 2 * count,
        forall|i: int| 0 <= i < 3 ==> (#[trigger] metadata_task_views(count)[i]) == root_tasks()[i],
        forall|d: usize|
            #![trigger subdirectory_tasks(d)]
            d < count ==> metadata_task_views(count)[3 + 2 * d] == subdirectory_tasks(d)[0]
                && metadata_task_views(count)[3 + 2 * d + 1] == subdirectory_tasks(d)[1],
{
    lemma_bundled_tasks(count);
}

/// The tasks on bundled directories, spelled out.
proof fn lemma_bundled_tasks(count: usize)
    ensures
        bundled_tasks(count).len() == 2 * count,
        forall|d: usize|
            #![trigger subdirectory_tasks(d)]
            d < count ==> bundled_tasks(count)[2 * d] == subdirectory_tasks(d)[0] && bundled_tasks(
                count,
            )[2 * d + 1] == subdirectory_tasks(d)[1],
    decreases count,
{
    if count > 0 {
        lemma_bundled_tasks((count - 1) as usize);
    }
}

/// A task on the file at `path` below a directory.
fn task(directory: Option<usize>, path: Vec<String>, work: FileWork) -> (task: FileTask)
    ensures
        task@ == (TaskView { directory, path: path.deep_view(), work }),
{
    FileTask { directory, path, work }
}

/// A path of one component.
fn path1(name: &str) -> (path: Vec<String>)
    ensures
        path.deep_view() == seq![name@],
{
    let mut path = no_texts();
    push_text(&mut path, name);
    path
}

/// A path of two components.
fn path2(directory: &str, name: &str) -> (path: Vec<String>)
    ensures
        path.deep_view() == seq![directory@, name@],
{
    let mut path = no_texts();
    push_text(&mut path, directory);
    push_text(&mut path, name);
    path
}

/// Appends one task to a list of tasks.
fn push_task(tasks: &mut Vec<FileTask>, task: FileTask)
    ensures
        task_views(final(tasks)@) == task_views(old(tasks)@).push(task@),
{
    tasks.push(task);
}

/// Lists the work of the metadata patch for a fixture with `count`
/// directories directly below its own, in the order in which it is to be done.
/// The caller lists those directories; a task names one by its place in that
/// list.
pub fn metadata_tasks(count: usize) -> (tasks: Vec<FileTask>)
    ensures
        task_views(tasks@) == metadata_task_views(count),
{
    let mut tasks: Vec<FileTask> = Vec::new();
    push_task(&mut tasks, task(None, path1("package.json"), FileWork::PatchManifest));
    let mut binding_test = path2("bindings", "node");
    push_text(&mut binding_test, "binding_test.js");
    assert(binding_test.deep_view() =~= seq!["bindings"@, "node"@, "binding_test.js"@]);
    push_task(&mut tasks, task(None, binding_test, FileWork::RewriteBindingTest));
    push_task(&mut tasks, task(None, path1("package-lock.json"), FileWork::Remove));
    let mut i: usize = 0;
    while i < count
        invariant
            i <= count,
            task_views(tasks@) == root_tasks() + bundled_tasks(i),
        decreases count - i,
    {
        push_task(
            &mut tasks,
            task(Some(i), path1("package.json"), FileWork::PatchPrivateManifest),
        );
        push_task(&mut tasks, task(Some(i), path1("package-lock.json"), FileWork::Remove));
        i = i + 1;
    }
    tasks
}

/// What is written to a file under a task: its new content from its present
/// content, or the reason to leave it as it is.
pub fn rewrite(work: FileWork, content: &str) -> (r: Result<String, Skip>)
    ensures
        match r {
            Ok(text) => new_content(work, content@) == Ok::<Seq<char>, Skip>(text@),
            Err(skip) => new_content(work, content@) == Err::<Seq<char>, Skip>(skip),
        },
{
    match work {
        FileWork::PatchManifest => match patch_manifest_text(content) {
            Ok(text) => Ok(text),
            Err(e) => Err(Skip::Manifest(e)),
        },
        FileWork::PatchPrivateManifest => match patch_subpackage_text(content) {
            Ok(text) => Ok(text),
            Err(e) => Err(Skip::Manifest(e)),
        },
        FileWork::RewriteBindingTest => match rewrite_binding_test(content) {
            Ok(text) => Ok(String::from_str(text)),
            Err(e) => Err(Skip::BindingTest(e)),
        },
        FileWork::Remove => Err(Skip::NothingToWrite),
    }
}

} // verus!
