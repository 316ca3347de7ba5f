//! The sequencing of a run: what to do next, given how the last step ended.
//!
//! A [`Scheduler`] never touches the outside world. It hands out one
//! [`Action`] at a time; the caller performs it and reports back with an
//! [`Event`]. A backup run lists the databases, dumps them one after the
//! other, and sleeps and starts over where an interval is set. A restore run
//! reads the restore directory once and replays each dump file it finds.
//! A task that fails is recorded and the next one is taken up; a notification
//! that fails changes nothing.

use crate::catalog::database_names;
use crate::config::{AppConfig, AppConfigView};
use crate::postgres::{
    create_call, dump_call, dump_plan, list_call, restore_call, Invocation, InvocationView,
    PostgresManager,
};
use crate::tasks::{
    dump_tasks, plan_dump_tasks, plan_restore_tasks, restore_tasks, DirectoryEntry,
    DirectoryEntryView, Task, TaskView,
};
use crate::text::{contains_text, copy_of, decimal, decimal_string, text_contains};
use crate::webhook::{
    file_post, message_post, WebhookCall, WebhookCallView, WebhookClient,
};
use vstd::prelude::*;
use vstd::string::*;

verus! {

/// What a run does: back the databases up, or restore them.
#[derive(Debug, Clone, Copy, PartialEq, Eq, Structural)]
pub enum Mode {
    Backup,
    Restore,
}

/// Where a run stands: what it waits for.
#[derive(Debug, Clone, Copy, PartialEq, Eq, Structural)]
pub enum Phase {
    /// Nothing was asked for yet.
    Idle,
    /// The server was asked for its databases.
    Listing,
    /// The webhook is being told how many databases will be dumped.
    Announcing,
    /// The directory of the current dump file is being made sure of.
    Preparing,
    /// The current database is being dumped.
    Dumping,
    /// The last dump file is being sent to the webhook.
    Uploading,
    /// The pass is over and the next one is due after the interval.
    Sleeping,
    /// The restore directory is being read.
    Scanning,
    /// The database of the current dump file is being created.
    Creating,
    /// The current dump file is being replayed.
    Restoring,
    /// The run is over.
    Finished,
}

/// What went wrong.
#[derive(Debug, Clone, Copy, PartialEq, Eq, Structural)]
pub enum ErrorKind {
    /// The server could not be reached.
    Connection,
    /// The server turned the credentials down.
    Auth,
    /// A directory could not be made or read.
    Io,
    /// A tool could not be started or did not end well.
    ToolExecution,
}

/// How one task ended.
#[derive(Debug, Clone, PartialEq, Eq)]
pub enum RunOutcome {
    Succeeded,
    Failed { kind: ErrorKind, detail: String },
}

pub ghost enum RunOutcomeView {
    Succeeded,
    Failed { kind: ErrorKind, detail: Seq<char> },
}

impl View for RunOutcome {
    type V = RunOutcomeView;

    open spec fn view(&self) -> RunOutcomeView {
        match self {
            RunOutcome::Succeeded => RunOutcomeView::Succeeded,
            RunOutcome::Failed { kind, detail } => RunOutcomeView::Failed {
                kind: *kind,
                detail: detail@,
            },
        }
    }
}

impl DeepView for RunOutcome {
    type V = RunOutcomeView;

    open spec fn deep_view(&self) -> RunOutcomeView {
        self@
    }
}

/// Why a run was given up.
#[derive(Debug, Clone, PartialEq, Eq)]
pub struct Failure {
    pub kind: ErrorKind,
    pub detail: String,
}

pub ghost struct FailureView {
    pub kind: ErrorKind,
    pub detail: Seq<char>,
}

impl View for Failure {
    type V = FailureView;

    open spec fn view(&self) -> FailureView {
        FailureView { kind: self.kind, detail: self.detail@ }
    }
}

impl DeepView for Failure {
    type V = FailureView;

    open spec fn deep_view(&self) -> FailureView {
        self@
    }
}

/// What the caller is to do next.
#[derive(Debug, Clone, PartialEq, Eq)]
pub enum Action {
    /// Run the tool to its end; report `Done` with what it printed where it
    /// ended well, `Failed` otherwise.
    Call { invocation: Invocation },
    /// Make the directory and those above it; one that is there already is
    /// no failure.
    EnsureDirectory { path: String },
    /// Report `Entries` with what the directory holds directly, each entry
    /// with its name and whether it is a regular file.
    ReadDirectory { path: String },
    /// Post to the webhook.
    Notify { call: WebhookCall },
    /// Wait for that many seconds.
    Sleep { seconds: u64 },
    /// End the process: in failure where there is an error.
    Exit { error: Option<ErrorKind> },
}

pub ghost enum ActionView {
    Call { invocation: InvocationView },
    EnsureDirectory { path: Seq<char> },
    ReadDirectory { path: Seq<char> },
    Notify { call: WebhookCallView },
    Sleep { seconds: u64 },
    Exit { error: Option<ErrorKind> },
}

impl View for Action {
    type V = ActionView;

    open spec fn view(&self) -> ActionView {
        match self {
            Action::Call { invocation } => ActionView::Call { invocation: invocation@ },
            Action::EnsureDirectory { path } => ActionView::EnsureDirectory { path: path@ },
            Action::ReadDirectory { path } => ActionView::ReadDirectory { path: path@ },
            Action::Notify { call } => ActionView::Notify { call: call@ },
            Action::Sleep { seconds } => ActionView::Sleep { seconds: *seconds },
            Action::Exit { error } => ActionView::Exit { error: *error },
        }
    }
}

/// How the last action ended.
#[derive(Debug, Clone, PartialEq, Eq)]
pub enum Event {
    /// There was no action yet.
    Start,
    /// The action ended well; `output` is what a tool printed.
    Done { output: String },
    /// The directory was read; it holds `entries`.
    Entries { entries: Vec<DirectoryEntry> },
    /// The action failed.
    Failed { detail: String },
}

pub ghost enum EventView {
    Start,
    Done { output: Seq<char> },
    Entries { entries: Seq<DirectoryEntryView> },
    Failed { detail: Seq<char> },
}

impl View for Event {
    type V = EventView;

    open spec fn view(&self) -> EventView {
        match self {
            Event::Start => EventView::Start,
            Event::Done { output } => EventView::Done { output: output@ },
            Event::Entries { entries } => EventView::Entries { entries: entries.deep_view() },
            Event::Failed { detail } => EventView::Failed { detail: detail@ },
        }
    }
}

/// A run, as far as its decisions depend on it.
pub ghost struct SchedulerView {
    pub config: AppConfigView,
    pub mode: Mode,
    pub phase: Phase,
    /// The tasks of the current pass, in the order in which they are taken.
    pub tasks: Seq<TaskView>,
    /// How many of them are over.
    pub cursor: nat,
    /// How each of those ended.
    pub outcomes: Seq<RunOutcomeView>,
    /// Why the run was given up, if it was.
    pub failure: Option<FailureView>,
}

/// The mode of a run: restore where the settings or the command line ask
/// for it, backup otherwise.
pub open spec fn chosen_mode(configured: bool, requested: bool) -> Mode {
    if configured || requested {
        Mode::Restore
    } else {
        Mode::Backup
    }
}

/// The run before its first step.
pub open spec fn initial(config: AppConfigView, requested: bool) -> SchedulerView {
    SchedulerView {
        config,
        mode: chosen_mode(config.restore, requested),
        phase: Phase::Idle,
        tasks: Seq::empty(),
        cursor: 0,
        outcomes: Seq::empty(),
        failure: None,
    }
}

/// Whether a task of the pass is under way in `phase`.
pub open spec fn works_on_task(phase: Phase) -> bool {
    phase == Phase::Preparing || phase == Phase::Dumping || phase == Phase::Creating || phase
        == Phase::Restoring
}

/// Whether `phase` lies between the planning of a pass and its end.
pub open spec fn within_pass(phase: Phase) -> bool {
    works_on_task(phase) || phase == Phase::Announcing || phase == Phase::Uploading
}

/// Whether `phase` belongs to `mode`.
pub open spec fn phase_of_mode(mode: Mode, phase: Phase) -> bool {
    match phase {
        Phase::Idle | Phase::Finished => true,
        Phase::Listing | Phase::Announcing | Phase::Preparing | Phase::Dumping | Phase::Uploading | Phase::Sleeping => mode
            == Mode::Backup,
        Phase::Scanning | Phase::Creating | Phase::Restoring => mode == Mode::Restore,
    }
}

/// What holds of a run at every step.
pub open spec fn well_formed(s: SchedulerView) -> bool {
    &&& s.cursor <= s.tasks.len()
    &&& s.outcomes.len() == s.cursor
    &&& works_on_task(s.phase) ==> s.cursor < s.tasks.len()
    &&& phase_of_mode(s.mode, s.phase)
    &&& s.failure is Some ==> s.phase == Phase::Finished
    &&& (s.phase == Phase::Sleeping || (s.phase == Phase::Finished && s.failure is None))
        ==> s.cursor == s.tasks.len()
}

/// The text that tells the webhook how many databases will be dumped.
pub open spec fn announcement(count: nat) -> Seq<char> {
    "Dumping "@ + decimal(count) + " databases!"@
}

/// The text that sums a backup pass up.
pub open spec fn summary(count: nat) -> Seq<char> {
    decimal(count) + " databases dumped!"@
}

/// How many of `outcomes` are successes.
pub open spec fn count_succeeded(outcomes: Seq<RunOutcomeView>) -> nat
    decreases outcomes.len(),
{
    if outcomes.len() == 0 {
        0
    } else {
        count_succeeded(outcomes.drop_last()) + if outcomes.last() is Succeeded {
            1nat
        } else {
            0nat
        }
    }
}

/// What a failure of the listing call means: the server turned the
/// credentials down where the tool says that authentication failed, and
/// could not be reached otherwise.
pub open spec fn listing_error_kind(detail: Seq<char>) -> ErrorKind {
    if contains_text(detail, "authentication failed"@) {
        ErrorKind::Auth
    } else {
        ErrorKind::Connection
    }
}

/// What a failure reported by `event` says of itself; nothing for an event
/// that reports none.
pub open spec fn detail_of(event: EventView) -> Seq<char> {
    match event {
        EventView::Failed { detail } => detail,
        _ => Seq::empty(),
    }
}

/// The end of a pass: a backup run with an interval sleeps, every other run
/// is over.
pub open spec fn end_pass(s: SchedulerView) -> (SchedulerView, ActionView) {
    match (s.mode, s.config.interval) {
        (Mode::Backup, Some(seconds)) => (
            SchedulerView { phase: Phase::Sleeping, ..s },
            ActionView::Sleep { seconds },
        ),
        _ => (SchedulerView { phase: Phase::Finished, ..s }, ActionView::Exit { error: None }),
    }
}

/// The next task is taken up, or the pass ends where none is left.
pub open spec fn begin_task(s: SchedulerView) -> (SchedulerView, ActionView) {
    if s.cursor >= s.tasks.len() {
        end_pass(s)
    } else {
        let task = s.tasks[s.cursor as int];
        match s.mode {
            Mode::Backup => {
                let plan = dump_plan(s.config.db, task.database, task.path);
                match plan.directory {
                    Some(path) => (
                        SchedulerView { phase: Phase::Preparing, ..s },
                        ActionView::EnsureDirectory { path },
                    ),
                    None => (
                        SchedulerView { phase: Phase::Dumping, ..s },
                        ActionView::Call { invocation: plan.invocation },
                    ),
                }
            },
            Mode::Restore => (
                SchedulerView { phase: Phase::Creating, ..s },
                ActionView::Call { invocation: create_call(s.config.db, task.database) },
            ),
        }
    }
}

/// The current task is over with `outcome`; the next one is taken up.
pub open spec fn finish_task(s: SchedulerView, outcome: RunOutcomeView) -> (
    SchedulerView,
    ActionView,
) {
    begin_task(SchedulerView { cursor: s.cursor + 1, outcomes: s.outcomes.push(outcome), ..s })
}

/// A pass begins: a backup asks the server for its databases, a restore
/// reads the restore directory. What the last pass left is dropped.
pub open spec fn begin_pass(s: SchedulerView) -> (SchedulerView, ActionView) {
    let fresh = SchedulerView { tasks: Seq::empty(), cursor: 0, outcomes: Seq::empty(), ..s };
    match s.mode {
        Mode::Backup => (
            SchedulerView { phase: Phase::Listing, ..fresh },
            ActionView::Call { invocation: list_call(s.config.db) },
        ),
        Mode::Restore => (
            SchedulerView { phase: Phase::Scanning, ..fresh },
            ActionView::ReadDirectory { path: s.config.restore_path },
        ),
    }
}

/// The run is given up.
pub open spec fn give_up(s: SchedulerView, failure: FailureView) -> (SchedulerView, ActionView) {
    (
        SchedulerView { phase: Phase::Finished, failure: Some(failure), ..s },
        ActionView::Exit { error: Some(failure.kind) },
    )
}

/// The server printed `listing`: the pass has one dump task for each
/// database in it. The webhook, where there is one, is told their number
/// before the first is taken up.
pub open spec fn listed(s: SchedulerView, listing: Seq<char>) -> (SchedulerView, ActionView) {
    let tasks = dump_tasks(s.config.save_path, database_names(listing));
    let planned = SchedulerView { tasks, cursor: 0, outcomes: Seq::empty(), ..s };
    match s.config.webhook_url {
        Some(url) => (
            SchedulerView { phase: Phase::Announcing, ..planned },
            ActionView::Notify { call: message_post(url, announcement(tasks.len())) },
        ),
        None => begin_task(planned),
    }
}

/// The current database was dumped: the task is over, and its file goes to
/// the webhook, where there is one, before the next task is taken up.
pub open spec fn dumped(s: SchedulerView) -> (SchedulerView, ActionView) {
    let done = SchedulerView {
        cursor: s.cursor + 1,
        outcomes: s.outcomes.push(RunOutcomeView::Succeeded),
        ..s
    };
    match s.config.webhook_url {
        Some(url) => match file_post(url, s.tasks[s.cursor as int].path) {
            Ok(call) => (
                SchedulerView { phase: Phase::Uploading, ..done },
                ActionView::Notify { call },
            ),
            Err(_) => begin_task(done),
        },
        None => begin_task(done),
    }
}

/// The restore directory holds `entries`: the pass has one restore
/// task for each dump file among them.
pub open spec fn scanned(s: SchedulerView, entries: Seq<DirectoryEntryView>) -> (
    SchedulerView,
    ActionView,
) {
    begin_task(
        SchedulerView {
            tasks: restore_tasks(s.config.restore_path, entries),
            cursor: 0,
            outcomes: Seq::empty(),
            ..s
        },
    )
}

/// The run after `event`, and what is to be done next.
pub open spec fn next(s: SchedulerView, event: EventView) -> (SchedulerView, ActionView) {
    match s.phase {
        Phase::Idle | Phase::Sleeping => begin_pass(s),
        Phase::Listing => match event {
            EventView::Done { output } => listed(s, output),
            _ => give_up(
                s,
                FailureView {
                    kind: listing_error_kind(detail_of(event)),
                    detail: detail_of(event),
                },
            ),
        },
        Phase::Announcing | Phase::Uploading => begin_task(s),
        Phase::Preparing => match event {
            EventView::Done { .. } => {
                let task = s.tasks[s.cursor as int];
                (
                    SchedulerView { phase: Phase::Dumping, ..s },
                    ActionView::Call {
                        invocation: dump_call(s.config.db, task.database, task.path),
                    },
                )
            },
            _ => finish_task(
                s,
                RunOutcomeView::Failed { kind: ErrorKind::Io, detail: detail_of(event) },
            ),
        },
        Phase::Dumping => match event {
            EventView::Done { .. } => dumped(s),
            _ => finish_task(
                s,
                RunOutcomeView::Failed { kind: ErrorKind::ToolExecution, detail: detail_of(event) },
            ),
        },
        Phase::Scanning => match event {
            EventView::Entries { entries } => scanned(s, entries),
            _ => give_up(s, FailureView { kind: ErrorKind::Io, detail: detail_of(event) }),
        },
        Phase::Creating => {
            let task = s.tasks[s.cursor as int];
            (
                SchedulerView { phase: Phase::Restoring, ..s },
                ActionView::Call {
                    invocation: restore_call(s.config.db, task.database, task.path),
                },
            )
        },
        Phase::Restoring => match event {
            EventView::Done { .. } => finish_task(s, RunOutcomeView::Succeeded),
            _ => finish_task(
                s,
                RunOutcomeView::Failed { kind: ErrorKind::ToolExecution, detail: detail_of(event) },
            ),
        },
        Phase::Finished => (
            s,
            ActionView::Exit {
                error: match s.failure {
                    Some(failure) => Some(failure.kind),
                    None => None,
                },
            },
        ),
    }
}

/// The most events that a pass in the state `s` still takes before it ends.
pub open spec fn steps_left(s: SchedulerView) -> int {
    let open = 3 * (s.tasks.len() - s.cursor);
    match s.phase {
        Phase::Announcing | Phase::Uploading => open + 1,
        Phase::Preparing | Phase::Creating => open,
        Phase::Dumping | Phase::Restoring => open - 1,
        _ => 0,
    }
}

/// The mode of a run.
pub fn select_mode(configured: bool, requested: bool) -> (mode: Mode)
    ensures
        mode == chosen_mode(configured, requested),
{
    if configured || requested {
        Mode::Restore
    } else {
        Mode::Backup
    }
}

fn detail_text(event: Event) -> (detail: String)
    ensures
        detail@ == detail_of(event@),
{
    match event {
        Event::Failed { detail } => detail,
        _ => String::new(),
    }
}

/// What a failure of the listing call means, going by what the tool said.
pub fn classify_listing_error(detail: &str) -> (kind: ErrorKind)
    ensures
        kind == listing_error_kind(detail@),
{
    if text_contains(detail, "authentication failed") {
        ErrorKind::Auth
    } else {
        ErrorKind::Connection
    }
}

/// The text that tells the webhook how many databases will be dumped.
pub fn announcement_text(count: usize) -> (text: String)
    ensures
        text@ == announcement(count as nat),
{
    let number: String = decimal_string(count as u64);
    "Dumping ".to_owned().concat(number.as_str()).concat(" databases!")
}

/// Sequences one run.
#[derive(Debug, Clone, PartialEq, Eq)]
pub struct Scheduler {
    config: AppConfig,
    mode: Mode,
    phase: Phase,
    tasks: Vec<Task>,
    cursor: usize,
    outcomes: Vec<RunOutcome>,
    failure: Option<Failure>,
}

impl View for Scheduler {
    type V = SchedulerView;

    closed spec fn view(&self) -> SchedulerView {
        SchedulerView {
            config: self.config@,
            mode: self.mode,
            phase: self.phase,
            tasks: self.tasks.deep_view(),
            cursor: self.cursor as nat,
            outcomes: self.outcomes.deep_view(),
            failure: self.failure.deep_view(),
        }
    }
}

impl Scheduler {
    /// What holds of a run at every step.
    pub open spec fn wf(&self) -> bool {
        well_formed(self@)
    }

    /// A run under `config`; `requested` says whether the command line asks
    /// for restore mode.
    pub fn new(config: AppConfig, requested: bool) -> (scheduler: Self)
        ensures
            scheduler.wf(),
            scheduler@ == initial(config@, requested),
    {
        let mode = select_mode(config.restore, requested);
        let scheduler = Scheduler {
            config,
            mode,
            phase: Phase::Idle,
            tasks: Vec::new(),
            cursor: 0,
            outcomes: Vec::new(),
            failure: None,
        };
        assert(scheduler.tasks.deep_view() =~= Seq::<TaskView>::empty());
        assert(scheduler.outcomes.deep_view() =~= Seq::<RunOutcomeView>::empty());
        scheduler
    }

    /// What the run does.
    pub fn mode(&self) -> (mode: Mode)
        ensures
            mode == self@.mode,
    {
        self.mode
    }

    /// Where the run stands.
    pub fn phase(&self) -> (phase: Phase)
        ensures
            phase == self@.phase,
    {
        self.phase
    }

    /// The tasks of the current pass.
    pub fn tasks(&self) -> (tasks: &Vec<Task>)
        ensures
            tasks.deep_view() == self@.tasks,
    {
        &self.tasks
    }

    /// How the tasks that are over ended, in the order of the tasks.
    pub fn outcomes(&self) -> (outcomes: &Vec<RunOutcome>)
        ensures
            outcomes.deep_view() == self@.outcomes,
    {
        &self.outcomes
    }

    /// Why the run was given up, if it was.
    pub fn failure(&self) -> (failure: &Option<Failure>)
        ensures
            failure.deep_view() == self@.failure,
    {
        &self.failure
    }

    /// Whether the run is over.
    pub fn is_finished(&self) -> (finished: bool)
        ensures
            finished == (self@.phase == Phase::Finished),
    {
        self.phase == Phase::Finished
    }

    /// The text that sums the pass up so far: how many databases were
    /// dumped.
    pub fn pass_summary(&self) -> (text: String)
        ensures
            text@ == summary(count_succeeded(self@.outcomes)),
    {
        let mut count: usize = 0;
        let mut i: usize = 0;
        assert(self.outcomes.deep_view().take(0) =~= Seq::<RunOutcomeView>::empty());
        while i < self.outcomes.len()
            invariant
                i <= self.outcomes.len(),
                count <= i,
                count == count_succeeded(self.outcomes.deep_view().take(i as int)),
            decreases self.outcomes.len() - i,
        {
            let ghost prefix = self.outcomes.deep_view().take(i + 1);
            assert(prefix.drop_last() =~= self.outcomes.deep_view().take(i as int));
            assert(prefix.last() == self.outcomes[i as int]@);
            match &self.outcomes[i] {
                RunOutcome::Succeeded => {
                    count = count + 1;
                },
                RunOutcome::Failed { .. } => {},
            }
            i = i + 1;
        }
        assert(self.outcomes.deep_view().take(i as int) =~= self.outcomes.deep_view());
        decimal_string(count as u64).concat(" databases dumped!")
    }

    fn end_pass(&mut self) -> (action: Action)
        ensures
            final(self)@ == end_pass(old(self)@).0,
            action@ == end_pass(old(self)@).1,
    {
        match (self.mode, self.config.interval) {
            (Mode::Backup, Some(seconds)) => {
                self.phase = Phase::Sleeping;
                Action::Sleep { seconds }
            },
            _ => {
                self.phase = Phase::Finished;
                Action::Exit { error: None }
            },
        }
    }

    fn begin_task(&mut self) -> (action: Action)
        ensures
            final(self)@ == begin_task(old(self)@).0,
            action@ == begin_task(old(self)@).1,
    {
        if self.cursor >= self.tasks.len() {
            return self.end_pass();
        }
        assert(self.tasks.deep_view()[self.cursor as int] == self.tasks[self.cursor as int]@);
        match self.mode {
            Mode::Backup => {
                let plan = PostgresManager::new(&self.config.db).dump_database(
                    self.tasks[self.cursor].database.as_str(),
                    self.tasks[self.cursor].path.as_str(),
                );
                match plan.directory {
                    Some(path) => {
                        self.phase = Phase::Preparing;
                        Action::EnsureDirectory { path }
                    },
                    None => {
                        self.phase = Phase::Dumping;
                        Action::Call { invocation: plan.invocation }
                    },
                }
            },
            Mode::Restore => {
                let invocation = PostgresManager::new(&self.config.db).create_database(
                    self.tasks[self.cursor].database.as_str(),
                );
                self.phase = Phase::Creating;
                Action::Call { invocation }
            },
        }
    }

    fn finish_task(&mut self, outcome: RunOutcome) -> (action: Action)
        requires
            old(self)@.cursor < old(self)@.tasks.len(),
        ensures
            final(self)@ == finish_task(old(self)@, outcome@).0,
            action@ == finish_task(old(self)@, outcome@).1,
    {
        assert(self.tasks.deep_view().len() == self.tasks.len());
        let ghost before = self.outcomes.deep_view();
        self.outcomes.push(outcome);
        assert(self.outcomes.deep_view() =~= before.push(outcome@));
        self.cursor = self.cursor + 1;
        self.begin_task()
    }

    fn begin_pass(&mut self) -> (action: Action)
        ensures
            final(self)@ == begin_pass(old(self)@).0,
            action@ == begin_pass(old(self)@).1,
    {
        self.tasks = Vec::new();
        self.outcomes = Vec::new();
        self.cursor = 0;
        assert(self.tasks.deep_view() =~= Seq::<TaskView>::empty());
        assert(self.outcomes.deep_view() =~= Seq::<RunOutcomeView>::empty());
        match self.mode {
            Mode::Backup => {
                let invocation = PostgresManager::new(&self.config.db).list_databases_command();
                self.phase = Phase::Listing;
                Action::Call { invocation }
            },
            Mode::Restore => {
                self.phase = Phase::Scanning;
                Action::ReadDirectory { path: self.config.restore_path.clone() }
            },
        }
    }

    fn give_up(&mut self, failure: Failure) -> (action: Action)
        ensures
            final(self)@ == give_up(old(self)@, failure@).0,
            action@ == give_up(old(self)@, failure@).1,
    {
        let kind = failure.kind;
        self.phase = Phase::Finished;
        self.failure = Some(failure);
        Action::Exit { error: Some(kind) }
    }

    fn listed(&mut self, listing: &str) -> (action: Action)
        ensures
            final(self)@ == listed(old(self)@, listing@).0,
            action@ == listed(old(self)@, listing@).1,
    {
        let databases = PostgresManager::new(&self.config.db).list_databases(listing);
        self.tasks = plan_dump_tasks(self.config.save_path.as_str(), &databases);
        self.outcomes = Vec::new();
        self.cursor = 0;
        assert(self.outcomes.deep_view() =~= Seq::<RunOutcomeView>::empty());
        match copy_of(&self.config.webhook_url) {
            Some(url) => {
                let text: String = announcement_text(self.tasks.len());
                self.phase = Phase::Announcing;
                Action::Notify { call: WebhookClient::new(url.as_str()).send_message(text.as_str()) }
            },
            None => self.begin_task(),
        }
    }

    fn dumped(&mut self) -> (action: Action)
        requires
            old(self)@.cursor < old(self)@.tasks.len(),
        ensures
            final(self)@ == dumped(old(self)@).0,
            action@ == dumped(old(self)@).1,
    {
        assert(self.tasks.deep_view()[self.cursor as int] == self.tasks[self.cursor as int]@);
        let upload: Option<WebhookCall> = match copy_of(&self.config.webhook_url) {
            Some(url) => match WebhookClient::new(url.as_str()).send_file(
                self.tasks[self.cursor].path.as_str(),
            ) {
                Ok(call) => Some(call),
                Err(_) => None,
            },
            None => None,
        };
        assert(self.tasks.deep_view().len() == self.tasks.len());
        let ghost before = self.outcomes.deep_view();
        self.outcomes.push(RunOutcome::Succeeded);
        assert(self.outcomes.deep_view() =~= before.push(RunOutcomeView::Succeeded));
        self.cursor = self.cursor + 1;
        match upload {
            Some(call) => {
                self.phase = Phase::Uploading;
                Action::Notify { call }
            },
            None => self.begin_task(),
        }
    }

    fn scanned(&mut self, entries: &Vec<DirectoryEntry>) -> (action: Action)
        ensures
            final(self)@ == scanned(old(self)@, entries.deep_view()).0,
            action@ == scanned(old(self)@, entries.deep_view()).1,
    {
        self.tasks = plan_restore_tasks(self.config.restore_path.as_str(), entries);
        self.outcomes = Vec::new();
        self.cursor = 0;
        assert(self.outcomes.deep_view() =~= Seq::<RunOutcomeView>::empty());
        self.begin_task()
    }

    /// Takes in how the last action ended and says what to do next.
    ///
    /// The first call takes `Event::Start`. An event of another kind than
    /// the last action ends in counts as the failure of that action. After
    /// `Action::Exit` the run is over: every further call gives
    /// `Action::Exit` again.
    pub fn step(&mut self, event: Event) -> (action: Action)
        requires
            old(self).wf(),
        ensures
            final(self).wf(),
            final(self)@ == next(old(self)@, event@).0,
            action@ == next(old(self)@, event@).1,
    {
        proof {
            lemma_step_keeps_well_formed(self@, event@);
        }
        match self.phase {
            Phase::Idle | Phase::Sleeping => self.begin_pass(),
            Phase::Listing => match event {
                Event::Done { output } => self.listed(output.as_str()),
                other => {
                    let detail: String = detail_text(other);
                    let kind = classify_listing_error(detail.as_str());
                    self.give_up(Failure { kind, detail })
                },
            },
            Phase::Announcing | Phase::Uploading => self.begin_task(),
            Phase::Preparing => match event {
                Event::Done { .. } => {
                    assert(self.tasks.deep_view()[self.cursor as int] == self.tasks[self.cursor as int]@);
                    let plan = PostgresManager::new(&self.config.db).dump_database(
                        self.tasks[self.cursor].database.as_str(),
                        self.tasks[self.cursor].path.as_str(),
                    );
                    self.phase = Phase::Dumping;
                    Action::Call { invocation: plan.invocation }
                },
                other => {
                    let detail: String = detail_text(other);
                    self.finish_task(RunOutcome::Failed { kind: ErrorKind::Io, detail })
                },
            },
            Phase::Dumping => match event {
                Event::Done { .. } => self.dumped(),
                other => {
                    let detail: String = detail_text(other);
                    self.finish_task(RunOutcome::Failed { kind: ErrorKind::ToolExecution, detail })
                },
            },
            Phase::Scanning => match event {
                Event::Entries { entries } => self.scanned(&entries),
                other => {
                    let detail: String = detail_text(other);
                    self.give_up(Failure { kind: ErrorKind::Io, detail })
                },
            },
            Phase::Creating => {
                assert(self.tasks.deep_view()[self.cursor as int] == self.tasks[self.cursor as int]@);
                let invocation = PostgresManager::new(&self.config.db).restore_database(
                    self.tasks[self.cursor].database.as_str(),
                    self.tasks[self.cursor].path.as_str(),
                );
                self.phase = Phase::Restoring;
                Action::Call { invocation }
            },
            Phase::Restoring => match event {
                Event::Done { .. } => self.finish_task(RunOutcome::Succeeded),
                other => {
                    let detail: String = detail_text(other);
                    self.finish_task(RunOutcome::Failed { kind: ErrorKind::ToolExecution, detail })
                },
            },
            Phase::Finished => {
                let error: Option<ErrorKind> = match &self.failure {
                    Some(failure) => Some(failure.kind),
                    None => None,
                };
                Action::Exit { error }
            },
        }
    }
}

/// Whatever happens, a run stays well formed.
pub proof fn lemma_step_keeps_well_formed(s: SchedulerView, event: EventView)
    requires
        well_formed(s),
    ensures
        well_formed(next(s, event).0),
{
}

} // verus!
