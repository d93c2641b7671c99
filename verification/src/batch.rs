//! Processing a directory: which entries are images, where each result goes,
//! and how the outcomes of the files add up to the outcome of the batch.
//!
//! The caller lists the directory and runs the tasks, on as many workers as
//! it likes. [`plan_batch`] turns the listing into tasks. A [`BatchState`],
//! shared by the workers, counts what has finished, keeps the first failure,
//! and tells a worker whether to start another task.

use crate::catalog::{
    format_named, is_supported_extension, lemma_format_name_is_plain, lemma_supported_iff_named,
    supported,
};
use crate::error::Error;
use crate::paths::{
    extension, extension_of, file_name_of, join, joined, lemma_joined_file_name,
    lemma_name_parts, lemma_with_extension_sets_extension, stem_of, with_extension,
    with_extension_of,
};
use crate::processor::format_of_path;
use crate::transform::{Operation, OperationView};
use vstd::prelude::*;

verus! {

/// One unit of work: the file to read and the file to write.
#[derive(Debug, Clone, PartialEq, Eq)]
pub struct FileTask {
    pub input: String,
    pub output: String,
}

/// The mathematical value of a [`FileTask`].
pub struct FileTaskView {
    pub input: Seq<char>,
    pub output: Seq<char>,
}

impl View for FileTask {
    type V = FileTaskView;

    open spec fn view(&self) -> FileTaskView {
        FileTaskView { input: self.input@, output: self.output@ }
    }
}

/// Whether a directory entry of this name is processed: its extension is
/// one of the supported ones, in any mix of upper and lower case.
pub open spec fn eligible(name: Seq<char>) -> bool {
    match extension_of(name) {
        Some(ext) => supported(ext),
        None => false,
    }
}

/// Where the result for the entry `name` goes: under the same name into the
/// output directory, for a conversion with the extension replaced by the
/// format name exactly as it was requested.
pub open spec fn output_path_of(output_dir: Seq<char>, name: Seq<char>, op: OperationView) -> Seq<
    char,
> {
    match op {
        OperationView::Convert { format } => with_extension_of(joined(output_dir, name), format),
        OperationView::Resize { .. } => joined(output_dir, name),
    }
}

/// The task for the entry `name`.
pub open spec fn task_of(
    input_dir: Seq<char>,
    output_dir: Seq<char>,
    name: Seq<char>,
    op: OperationView,
) -> FileTaskView {
    FileTaskView { input: joined(input_dir, name), output: output_path_of(output_dir, name, op) }
}

/// The tasks of a directory listing: one for each eligible entry, in the
/// order of the listing.
pub open spec fn planned(
    input_dir: Seq<char>,
    output_dir: Seq<char>,
    names: Seq<Seq<char>>,
    op: OperationView,
) -> Seq<FileTaskView> {
    names.filter(|name: Seq<char>| eligible(name)).map_values(
        |name: Seq<char>| task_of(input_dir, output_dir, name, op),
    )
}

/// The names of a listing as sequences of characters.
pub open spec fn name_views(names: Seq<String>) -> Seq<Seq<char>> {
    names.map_values(|name: String| name@)
}

/// The tasks of a list as mathematical values.
pub open spec fn task_views(tasks: Seq<FileTask>) -> Seq<FileTaskView> {
    tasks.map_values(|task: FileTask| task@)
}

/// Whether `task` is the task of some eligible entry of the listing.
pub open spec fn from_listing(
    input_dir: Seq<char>,
    output_dir: Seq<char>,
    names: Seq<Seq<char>>,
    op: OperationView,
    task: FileTaskView,
) -> bool {
    exists|i: int|
        0 <= i < names.len() && eligible(#[trigger] names[i]) && task == task_of(
            input_dir,
            output_dir,
            names[i],
            op,
        )
}

/// Every eligible entry of a listing gets a task, every task comes from an
/// eligible entry, and no plan holds more tasks than the listing has
/// entries.
pub proof fn lemma_plan_covers(
    input_dir: Seq<char>,
    output_dir: Seq<char>,
    names: Seq<Seq<char>>,
    op: OperationView,
)
    ensures
        planned(input_dir, output_dir, names, op).len() <= names.len(),
        forall|i: int|
            0 <= i < names.len() && eligible(#[trigger] names[i]) ==> planned(
                input_dir,
                output_dir,
                names,
                op,
            ).contains(task_of(input_dir, output_dir, names[i], op)),
        forall|j: int|
            0 <= j < planned(input_dir, output_dir, names, op).len() ==> from_listing(
                input_dir,
                output_dir,
                names,
                op,
                #[trigger] planned(input_dir, output_dir, names, op)[j],
            ),
{
    let pred = |name: Seq<char>| eligible(name);
    let kept = names.filter(pred);
    let plan = planned(input_dir, output_dir, names, op);
    names.lemma_filter_len(pred);
    assert forall|i: int| 0 <= i < names.len() && eligible(#[trigger] names[i]) implies plan.contains(
        task_of(input_dir, output_dir, names[i], op),
    ) by {
        names.lemma_filter_contains(pred, i);
        let k = choose|k: int| 0 <= k < kept.len() && kept[k] == names[i];
        assert(plan[k] == task_of(input_dir, output_dir, names[i], op));
    }
    assert forall|j: int| 0 <= j < plan.len() implies from_listing(
        input_dir,
        output_dir,
        names,
        op,
        #[trigger] plan[j],
    ) by {
        names.lemma_filter_pred(pred, j);
        assert(kept.contains(kept[j]));
        names.lemma_filter_contains_rev(pred, kept[j]);
        let i = choose|i: int| 0 <= i < names.len() && names[i] == kept[j];
        assert(eligible(names[i]));
        assert(plan[j] == task_of(input_dir, output_dir, names[i], op));
    }
}

/// A listing without an eligible entry gives no task, and a listing of
/// eligible entries only gives one task for each.
pub proof fn lemma_plan_extremes(
    input_dir: Seq<char>,
    output_dir: Seq<char>,
    names: Seq<Seq<char>>,
    op: OperationView,
)
    ensures
        (forall|i: int| 0 <= i < names.len() ==> !eligible(#[trigger] names[i])) ==> planned(
            input_dir,
            output_dir,
            names,
            op,
        ).len() == 0,
        (forall|i: int| 0 <= i < names.len() ==> eligible(#[trigger] names[i])) ==> planned(
            input_dir,
            output_dir,
            names,
            op,
        ).len() == names.len(),
    decreases names.len(),
{
    let pred = |name: Seq<char>| eligible(name);
    if names.len() > 0 {
        lemma_plan_extremes(input_dir, output_dir, names.drop_last(), op);
        assert forall|i: int| 0 <= i < names.drop_last().len() implies names.drop_last()[i]
            == names[i] by {}
        if forall|i: int| 0 <= i < names.len() ==> !eligible(#[trigger] names[i]) {
            assert(!eligible(names[names.len() - 1]));
            assert forall|i: int| 0 <= i < names.drop_last().len() implies !eligible(
                #[trigger] names.drop_last()[i],
            ) by {
                assert(!eligible(names[i]));
            }
        }
        if forall|i: int| 0 <= i < names.len() ==> eligible(#[trigger] names[i]) {
            assert(eligible(names[names.len() - 1]));
            assert forall|i: int| 0 <= i < names.drop_last().len() implies eligible(
                #[trigger] names.drop_last()[i],
            ) by {
                assert(eligible(names[i]));
            }
        }
        assert(names =~= names.drop_last().push(names.last()));
        names.drop_last().lemma_filter_push(names.last(), pred);
    } else {
        reveal(Seq::filter);
    }
}

/// The task of an eligible entry reads a file whose extension stands for a
/// format, the format named by the entry's own extension. A resize writes to
/// a path with that same extension. A conversion to a recognized format
/// writes to a path whose extension is the format name as requested, and so
/// stands for the requested format.
pub proof fn lemma_task_formats(
    input_dir: Seq<char>,
    output_dir: Seq<char>,
    name: Seq<char>,
    op: OperationView,
)
    requires
        !name.contains('/'),
        eligible(name),
    ensures
        file_name_of(task_of(input_dir, output_dir, name, op).input) == name,
        format_of_path(task_of(input_dir, output_dir, name, op).input) is Some,
        format_of_path(task_of(input_dir, output_dir, name, op).input) == format_of_path(name),
        match op {
            OperationView::Resize { .. } => format_of_path(
                task_of(input_dir, output_dir, name, op).output,
            ) == format_of_path(name),
            OperationView::Convert { format } => format_named(format) is Some ==> extension_of(
                task_of(input_dir, output_dir, name, op).output,
            ) == Some(format) && format_of_path(task_of(input_dir, output_dir, name, op).output)
                == format_named(format),
        },
{
    lemma_joined_file_name(input_dir, name);
    lemma_joined_file_name(output_dir, name);
    lemma_supported_iff_named(extension_of(name)->0);
    if let OperationView::Convert { format } = op {
        if format_named(format) is Some {
            let plain = joined(output_dir, name);
            lemma_format_name_is_plain(format);
            lemma_name_parts(plain);
            assert(stem_of(plain).len() > 0);
            lemma_with_extension_sets_extension(plain, format);
        }
    }
}

/// Whether the directory entry `name` is processed.
pub fn is_eligible(name: &str) -> (yes: bool)
    ensures
        yes == eligible(name@),
{
    match extension(name) {
        Some(ext) => is_supported_extension(ext),
        None => false,
    }
}

/// Whether a directory entry is taken into the batch: it is a file, not a
/// directory, and its name is eligible.
pub fn takes_entry(name: &str, is_file: bool) -> (yes: bool)
    ensures
        yes == (is_file && eligible(name@)),
{
    is_file && is_eligible(name)
}

/// The path that the result for the entry `name` is written to.
pub fn output_path(output_dir: &str, name: &str, op: &Operation) -> (path: String)
    ensures
        path@ == output_path_of(output_dir@, name@, op@),
{
    let plain = join(output_dir, name);
    match op {
        Operation::Convert { format } => with_extension(plain.as_str(), format.as_str()),
        Operation::Resize { .. } => plain,
    }
}

/// The tasks for the entries `names` of the directory `input_dir`, with the
/// results going to `output_dir`: one task for each eligible entry, in the
/// order of the listing. Other entries are passed over.
pub fn plan_batch(input_dir: &str, output_dir: &str, names: &Vec<String>, op: &Operation) -> (tasks:
    Vec<FileTask>)
    ensures
        task_views(tasks@) == planned(input_dir@, output_dir@, name_views(names@), op@),
{
    let ghost pred = |name: Seq<char>| eligible(name);
    let ghost make = |name: Seq<char>| task_of(input_dir@, output_dir@, name, op@);
    let ghost all = name_views(names@);
    let mut tasks: Vec<FileTask> = Vec::new();
    let mut i: usize = 0;
    assert(all.take(0).filter(pred) =~= Seq::<Seq<char>>::empty()) by {
        reveal(Seq::filter);
    }
    assert(task_views(tasks@) =~= all.take(0).filter(pred).map_values(make));
    while i < names.len()
        invariant
            i <= names.len(),
            all == name_views(names@),
            pred == |name: Seq<char>| eligible(name),
            make == |name: Seq<char>| task_of(input_dir@, output_dir@, name, op@),
            task_views(tasks@) == all.take(i as int).filter(pred).map_values(make),
        decreases names.len() - i,
    {
        let name = names[i].as_str();
        let ghost before = all.take(i as int);
        let ghost upto = all.take(i + 1);
        let ghost old_tasks = tasks@;
        proof {
            assert(upto =~= before.push(name@));
            before.lemma_filter_push(name@, pred);
        }
        if is_eligible(name) {
            let task = FileTask { input: join(input_dir, name), output: output_path(output_dir, name, op) };
            tasks.push(task);
            proof {
                assert(task@ == make(name@));
                assert(upto.filter(pred) == before.filter(pred).push(name@));
                assert(task_views(tasks@) =~= task_views(old_tasks).push(task@));
                assert(upto.filter(pred).map_values(make) =~= before.filter(pred).map_values(
                    make,
                ).push(make(name@)));
            }
        } else {
            proof {
                assert(upto.filter(pred) == before.filter(pred));
            }
        }
        i = i + 1;
    }
    assert(all.take(i as int) =~= all);
    tasks
}

/// The outcome of a batch: how many files were attempted, and the first
/// failure, if there was one.
#[derive(Debug, Clone, PartialEq, Eq)]
pub struct BatchResult {
    pub attempted: usize,
    pub failure: Option<Error>,
}

impl BatchResult {
    /// The batch as one result: its first failure, or success.
    pub fn into_result(self) -> (out: Result<(), Error>)
        ensures
            out == match self.failure {
                Some(e) => Err::<(), Error>(e),
                None => Ok::<(), Error>(()),
            },
    {
        match self.failure {
            Some(e) => Err(e),
            None => Ok(()),
        }
    }
}

/// The state of a running batch.
pub struct BatchState {
    total: usize,
    finished: usize,
    failure: Option<Error>,
}

impl BatchState {
    /// No more files finish than the batch has.
    #[verifier::type_invariant]
    spec fn within_total(self) -> bool {
        self.finished <= self.total
    }

    /// The number of tasks of the batch.
    pub closed spec fn total(self) -> nat {
        self.total as nat
    }

    /// The number of tasks that have finished, well or not.
    pub closed spec fn finished(self) -> nat {
        self.finished as nat
    }

    /// The first failure that was recorded.
    pub closed spec fn failure(self) -> Option<Error> {
        self.failure
    }

    /// The state of a batch of `total` tasks, none of them finished.
    pub fn new(total: usize) -> (state: BatchState)
        ensures
            state.total() == total,
            state.finished() == 0,
            state.failure() is None,
    {
        BatchState { total, finished: 0, failure: None }
    }

    /// Whether a worker may start another task: none has failed yet, and
    /// not all have finished.
    pub fn accepts_work(&self) -> (yes: bool)
        ensures
            yes == (self.failure() is None && self.finished() < self.total()),
    {
        self.failure.is_none() && self.finished < self.total
    }

    /// The number of tasks that have finished: the position of the progress
    /// display.
    pub fn progress(&self) -> (done: usize)
        ensures
            done == self.finished(),
            done <= self.total(),
    {
        proof {
            use_type_invariant(self);
        }
        self.finished
    }

    /// Records that one task has finished with `outcome`, and says whether
    /// the batch goes on. The count goes up by one, but never beyond the
    /// number of tasks; the first failure stays the failure of the batch.
    pub fn record(&mut self, outcome: Result<(), Error>) -> (go_on: bool)
        ensures
            final(self).total() == old(self).total(),
            final(self).finished() == if old(self).finished() < old(self).total() {
                old(self).finished() + 1
            } else {
                old(self).finished()
            },
            final(self).failure() == match old(self).failure() {
                Some(e) => Some(e),
                None => match outcome {
                    Ok(_) => None,
                    Err(e) => Some(e),
                },
            },
            go_on == (final(self).failure() is None
                && final(self).finished() < final(self).total()),
    {
        proof {
            use_type_invariant(&*self);
        }
        if self.finished < self.total {
            self.finished = self.finished + 1;
        }
        if self.failure.is_none() {
            if let Err(e) = outcome {
                self.failure = Some(e);
            }
        }
        self.failure.is_none() && self.finished < self.total
    }

    /// The outcome of the batch as it stands.
    pub fn finish(self) -> (result: BatchResult)
        ensures
            result.attempted == self.finished(),
            result.failure == self.failure(),
    {
        BatchResult { attempted: self.finished, failure: self.failure }
    }
}

} // verus!
