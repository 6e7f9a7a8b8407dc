use vstd::prelude::*;

use crate::runtimes::{all_known, lemma_resolved_names, resolved, runtime_name, Runtime};

verus! {

/// Why fetching an artifact failed.
#[derive(Clone, Copy, Debug, PartialEq, Eq, Structural)]
pub enum TransferError {
    /// Connection, timeout or a non-success status.
    Network,
    /// The destination file could not be created or written.
    Io,
}

/// Why unpacking or copying an artifact failed.
#[derive(Clone, Copy, Debug, PartialEq, Eq, Structural)]
pub enum ExtractError {
    /// The archive could not be decoded.
    Corrupt,
    /// The target could not be written.
    Io,
}

/// Why one runtime's download or install failed.
#[derive(Clone, Copy, Debug, PartialEq, Eq, Structural)]
pub enum TaskError {
    Transfer(TransferError),
    Extract(ExtractError),
    /// A directory could not be created.
    Filesystem,
}

/// Where a task stands.
#[derive(Clone, Copy, Debug, PartialEq, Eq)]
pub enum TaskState {
    /// Its download is to run.
    Downloading,
    /// Its download succeeded and its install is to run.
    Installing,
    /// It is over, with this result.
    Finished(Result<(), TaskError>),
}

/// What the worker of a task is to do next.
#[derive(Clone, Copy, Debug, PartialEq, Eq, Structural)]
pub enum Action {
    Download,
    Install,
    Done,
}

/// The processing of one runtime: its download, then its install.
#[derive(Clone, Copy, Debug, PartialEq, Eq)]
pub struct Task {
    pub runtime: Runtime,
    pub state: TaskState,
}

/// The terminal result recorded for one runtime.
#[derive(Clone, Copy, Debug, PartialEq, Eq)]
pub struct TaskOutcome {
    pub runtime: Runtime,
    pub result: Result<(), TaskError>,
}

/// What a worker does in a state.
pub open spec fn action_of(s: TaskState) -> Action {
    match s {
        TaskState::Downloading => Action::Download,
        TaskState::Installing => Action::Install,
        TaskState::Finished(_) => Action::Done,
    }
}

/// The state after the current phase reported `result`. A failed download
/// ends the task; a successful one leads to the install; the install's result
/// ends the task. A finished task stays as it is.
pub open spec fn advanced(s: TaskState, result: Result<(), TaskError>) -> TaskState {
    match s {
        TaskState::Downloading => match result {
            Ok(()) => TaskState::Installing,
            Err(e) => TaskState::Finished(Err(e)),
        },
        TaskState::Installing => TaskState::Finished(result),
        TaskState::Finished(o) => TaskState::Finished(o),
    }
}

/// The state reached from `s` after the phases reported `results`, in order.
pub open spec fn run_from(s: TaskState, results: Seq<Result<(), TaskError>>) -> TaskState
    decreases results.len(),
{
    if results.len() == 0 {
        s
    } else {
        run_from(advanced(s, results[0]), results.drop_first())
    }
}

/// The outcome of a task, once it is finished.
pub open spec fn outcome_of(t: Task) -> Option<TaskOutcome> {
    match t.state {
        TaskState::Finished(result) => Some(TaskOutcome { runtime: t.runtime, result }),
        _ => None,
    }
}

/// Every task is finished.
pub open spec fn all_finished(tasks: Seq<Task>) -> bool {
    forall|i: int| 0 <= i < tasks.len() ==> (#[trigger] tasks[i]).state is Finished
}

/// The outcomes of finished tasks, in the tasks' order.
pub open spec fn outcomes_of(tasks: Seq<Task>) -> Seq<TaskOutcome> {
    tasks.map_values(|t: Task| outcome_of(t).unwrap())
}

/// How an error is shown in a report line.
pub open spec fn error_text(e: TaskError) -> Seq<char> {
    match e {
        TaskError::Transfer(TransferError::Network) => "Network"@,
        TaskError::Transfer(TransferError::Io) => "Io"@,
        TaskError::Extract(ExtractError::Corrupt) => "Corrupt"@,
        TaskError::Extract(ExtractError::Io) => "Io"@,
        TaskError::Filesystem => "Filesystem"@,
    }
}

/// The report line of an outcome: `<name>: Ok` or `<name>: Err(<error>)`.
pub open spec fn outcome_line(o: TaskOutcome) -> Seq<char> {
    match o.result {
        Ok(()) => runtime_name(o.runtime) + ": Ok"@,
        Err(e) => runtime_name(o.runtime) + ": Err("@ + error_text(e) + ")"@,
    }
}

/// The progress text of a task in a state: `Downloading <name>`,
/// `Installing <name>`, `Installed <name>` or `Failed <name>`.
pub open spec fn status_text(r: Runtime, s: TaskState) -> Seq<char> {
    match s {
        TaskState::Downloading => "Downloading "@ + runtime_name(r),
        TaskState::Installing => "Installing "@ + runtime_name(r),
        TaskState::Finished(Ok(())) => "Installed "@ + runtime_name(r),
        TaskState::Finished(Err(_)) => "Failed "@ + runtime_name(r),
    }
}

impl TaskError {
    /// How the error is shown in a report line.
    pub fn text(&self) -> (s: &'static str)
        ensures
            s@ == error_text(*self),
    {
        match self {
            TaskError::Transfer(TransferError::Network) => "Network",
            TaskError::Transfer(TransferError::Io) => "Io",
            TaskError::Extract(ExtractError::Corrupt) => "Corrupt",
            TaskError::Extract(ExtractError::Io) => "Io",
            TaskError::Filesystem => "Filesystem",
        }
    }
}

impl TaskOutcome {
    /// The outcome's report line.
    pub fn line(&self) -> (s: String)
        ensures
            s@ == outcome_line(*self),
    {
        let mut s = self.runtime.name().to_owned();
        match self.result {
            Ok(()) => {
                s.append(": Ok");
            },
            Err(e) => {
                s.append(": Err(");
                s.append(e.text());
                s.append(")");
            },
        }
        s
    }
}

impl Task {
    /// A task for `runtime` that has yet to download it.
    pub fn new(runtime: Runtime) -> (t: Task)
        ensures
            t.runtime == runtime,
            t.state == TaskState::Downloading,
    {
        Task { runtime, state: TaskState::Downloading }
    }

    /// What the worker is to do next.
    pub fn action(&self) -> (a: Action)
        ensures
            a == action_of(self.state),
    {
        match self.state {
            TaskState::Downloading => Action::Download,
            TaskState::Installing => Action::Install,
            TaskState::Finished(_) => Action::Done,
        }
    }

    /// Records the result of the phase that just ran and gives the next action.
    pub fn complete(&mut self, result: Result<(), TaskError>) -> (a: Action)
        ensures
            final(self).runtime == old(self).runtime,
            final(self).state == advanced(old(self).state, result),
            a == action_of(final(self).state),
    {
        let next = match self.state {
            TaskState::Downloading => match result {
                Ok(()) => TaskState::Installing,
                Err(e) => TaskState::Finished(Err(e)),
            },
            TaskState::Installing => TaskState::Finished(result),
            TaskState::Finished(o) => TaskState::Finished(o),
        };
        self.state = next;
        self.action()
    }

    /// The progress text of the task.
    pub fn status(&self) -> (s: String)
        ensures
            s@ == status_text(self.runtime, self.state),
    {
        let mut s = match self.state {
            TaskState::Downloading => "Downloading ".to_owned(),
            TaskState::Installing => "Installing ".to_owned(),
            TaskState::Finished(Ok(())) => "Installed ".to_owned(),
            TaskState::Finished(Err(_)) => "Failed ".to_owned(),
        };
        s.append(self.runtime.name());
        s
    }

    /// The task's outcome, once it is finished.
    pub fn outcome(&self) -> (o: Option<TaskOutcome>)
        ensures
            o == outcome_of(*self),
    {
        match self.state {
            TaskState::Finished(result) => Some(TaskOutcome { runtime: self.runtime, result }),
            _ => None,
        }
    }
}

/// One task per runtime, in the same order, each yet to download.
pub fn new_tasks(runtimes: &Vec<Runtime>) -> (tasks: Vec<Task>)
    ensures
        tasks@.len() == runtimes@.len(),
        forall|i: int|
            0 <= i < runtimes@.len() ==> #[trigger] tasks@[i] == Task::new_spec(runtimes@[i]),
{
    let mut tasks: Vec<Task> = Vec::new();
    let mut i: usize = 0;
    while i < runtimes.len()
        invariant
            i <= runtimes@.len(),
            tasks@.len() == i,
            forall|j: int| 0 <= j < i ==> #[trigger] tasks@[j] == Task::new_spec(runtimes@[j]),
        decreases runtimes.len() - i,
    {
        tasks.push(Task::new(runtimes[i]));
        i += 1;
    }
    tasks
}

impl Task {
    /// The task that `new` makes.
    pub open spec fn new_spec(runtime: Runtime) -> Task {
        Task { runtime, state: TaskState::Downloading }
    }
}

/// The aggregate report of a run: one outcome per task, in the tasks' order.
#[derive(Clone, Debug, PartialEq, Eq)]
pub struct Report {
    pub outcomes: Vec<TaskOutcome>,
}

impl Report {
    /// Whether every runtime was installed.
    pub fn all_ok(&self) -> (b: bool)
        ensures
            b == forall|i: int| 0 <= i < self.outcomes@.len() ==> (#[trigger] self.outcomes@[i]).result is Ok,
    {
        let mut i: usize = 0;
        while i < self.outcomes.len()
            invariant
                i <= self.outcomes@.len(),
                forall|j: int| 0 <= j < i ==> (#[trigger] self.outcomes@[j]).result is Ok,
            decreases self.outcomes.len() - i,
        {
            if self.outcomes[i].result.is_err() {
                return false;
            }
            i += 1;
        }
        true
    }

    /// One line per runtime, in the report's order, saying whether it was
    /// installed or why not.
    pub fn lines(&self) -> (v: Vec<String>)
        ensures
            v@.len() == self.outcomes@.len(),
            forall|i: int| 0 <= i < v@.len() ==> (#[trigger] v@[i])@ == outcome_line(self.outcomes@[i]),
    {
        let mut v: Vec<String> = Vec::new();
        let mut i: usize = 0;
        while i < self.outcomes.len()
            invariant
                i <= self.outcomes@.len(),
                v@.len() == i,
                forall|j: int| 0 <= j < i ==> (#[trigger] v@[j])@ == outcome_line(self.outcomes@[j]),
            decreases self.outcomes.len() - i,
        {
            v.push(self.outcomes[i].line());
            i += 1;
        }
        v
    }
}

/// The report of a run, once every task is finished; `None` while some task
/// is not.
pub fn summarize(tasks: &Vec<Task>) -> (r: Option<Report>)
    ensures
        r is Some <==> all_finished(tasks@),
        r matches Some(rep) ==> rep.outcomes@ == outcomes_of(tasks@),
{
    let mut outcomes: Vec<TaskOutcome> = Vec::new();
    let mut i: usize = 0;
    while i < tasks.len()
        invariant
            i <= tasks@.len(),
            all_finished(tasks@.take(i as int)),
            outcomes@ == outcomes_of(tasks@.take(i as int)),
        decreases tasks.len() - i,
    {
        match tasks[i].outcome() {
            None => {
                assert(!all_finished(tasks@));
                return None;
            },
            Some(o) => {
                outcomes.push(o);
            },
        }
        assert(tasks@.take(i + 1) =~= tasks@.take(i as int).push(tasks@[i as int]));
        assert(outcomes@ =~= outcomes_of(tasks@.take(i + 1)));
        i += 1;
    }
    assert(tasks@.take(i as int) =~= tasks@);
    Some(Report { outcomes })
}

/// A finished task stays as it is, whatever is reported after.
pub proof fn lemma_finished_is_final(o: Result<(), TaskError>, results: Seq<Result<(), TaskError>>)
    ensures
        run_from(TaskState::Finished(o), results) == TaskState::Finished(o),
    decreases results.len(),
{
    if results.len() > 0 {
        lemma_finished_is_final(o, results.drop_first());
    }
}

/// A runtime whose download reported a failure is never installed: from the
/// start of a task whose first phase failed, no later state asks for the
/// install, and the task ends with that failure.
pub proof fn lemma_no_install_after_failed_download(results: Seq<Result<(), TaskError>>)
    requires
        results.len() > 0,
        results[0] is Err,
    ensures
        forall|k: int|
            1 <= k <= results.len() ==> run_from(TaskState::Downloading, #[trigger] results.take(k))
                == TaskState::Finished(results[0]),
        forall|k: int|
            0 <= k <= results.len() ==> action_of(run_from(TaskState::Downloading, #[trigger] results.take(k)))
                != Action::Install,
{
    assert forall|k: int| 1 <= k <= results.len() implies run_from(
        TaskState::Downloading,
        #[trigger] results.take(k),
    ) == TaskState::Finished(results[0]) by {
        let t = results.take(k);
        assert(t[0] == results[0]);
        lemma_finished_is_final(results[0], t.drop_first());
    }
    assert forall|k: int| 0 <= k <= results.len() implies action_of(
        run_from(TaskState::Downloading, #[trigger] results.take(k)),
    ) != Action::Install by {
        if k >= 1 {
            assert(run_from(TaskState::Downloading, results.take(k)) == TaskState::Finished(
                results[0],
            ));
        } else {
            assert(results.take(k).len() == 0);
        }
    }
}

/// Exactly one outcome per requested runtime: when the requested names are
/// distinct and all known, the tasks made for their resolution report, once
/// all are finished, one outcome per name, in the order of the request.
pub proof fn lemma_one_outcome_per_name(names: Seq<Seq<char>>, tasks: Seq<Task>)
    requires
        names.no_duplicates(),
        all_known(names),
        tasks.len() == resolved(names).len(),
        forall|i: int| 0 <= i < tasks.len() ==> (#[trigger] tasks[i]).runtime == resolved(names)[i],
        all_finished(tasks),
    ensures
        outcomes_of(tasks).len() == names.len(),
        forall|i: int|
            0 <= i < names.len() ==> runtime_name((#[trigger] outcomes_of(tasks)[i]).runtime)
                == names[i],
{
    lemma_resolved_names(names);
    assert forall|i: int| 0 <= i < names.len() implies runtime_name(
        (#[trigger] outcomes_of(tasks)[i]).runtime,
    ) == names[i] by {
        assert(tasks[i].state is Finished);
        assert(runtime_name(resolved(names)[i]) == names[i]);
    }
}

} // verus!
