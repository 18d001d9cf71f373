//! The command-line driver: what an invocation asks for, and the order in
//! which authentication and the calls to the task service follow each other.
//!
//! The caller parses the arguments, runs the authentication and each call,
//! and reports what came of it as a [`DriverEvent`].

use crate::error::Error;
use crate::text::{optional_text, texts};
use crate::tasks::{
    find_task_list, has_named, lemma_first_named, list_views, not_started, spec_find_task_list,
    spec_not_started, task_views, Task, TaskList, TaskListView, TaskView,
};
use vstd::prelude::*;
use vstd::string::StringExecFns;

verus! {

/// The arguments of one invocation, parsed and nothing more.
#[derive(Debug)]
pub struct Invocation {
    /// Whether the flag that asks for the list of tasks was given.
    pub list_tasks: bool,
    /// The name given with the flag that selects a task list.
    pub task_list: Option<String>,
    /// The trailing words: the text of a new task.
    pub words: Vec<String>,
}

/// What an invocation asks for.
#[derive(Debug)]
pub enum Command {
    /// Show the tasks on the list with this name that nobody has begun.
    ListTasks { list: String },
    /// Create a task with this title on the list with this name.
    AddTask { list: String, title: String },
}

/// What an [`Invocation`] holds, as mathematical values.
pub struct InvocationView {
    pub list_tasks: bool,
    pub task_list: Option<Seq<char>>,
    pub words: Seq<Seq<char>>,
}

/// What a [`Command`] holds, as mathematical values.
pub enum CommandView {
    ListTasks { list: Seq<char> },
    AddTask { list: Seq<char>, title: Seq<char> },
}

impl View for Invocation {
    type V = InvocationView;

    open spec fn view(&self) -> InvocationView {
        InvocationView {
            list_tasks: self.list_tasks,
            task_list: optional_text(self.task_list),
            words: texts(self.words@),
        }
    }
}

impl View for Command {
    type V = CommandView;

    open spec fn view(&self) -> CommandView {
        match self {
            Command::ListTasks { list } => CommandView::ListTasks { list: list@ },
            Command::AddTask { list, title } => CommandView::AddTask { list: list@, title: title@ },
        }
    }
}

impl CommandView {
    /// The name of the task list that the command is about.
    pub open spec fn list(self) -> Seq<char> {
        match self {
            CommandView::ListTasks { list } => list,
            CommandView::AddTask { list, .. } => list,
        }
    }
}

/// The flag that asks for the list of tasks, in its short form.
pub const LIST_FLAG_SHORT: &'static str = "-l";

/// The flag that asks for the list of tasks.
pub const LIST_FLAG: &'static str = "--list";

/// The flag that selects a task list by the name that follows it, in its
/// short form.
pub const SELECT_FLAG_SHORT: &'static str = "-t";

/// The flag that selects a task list by the name that follows it.
pub const SELECT_FLAG: &'static str = "--task-list";

/// Whether the argument asks for the list of tasks.
pub open spec fn is_list_flag(argument: Seq<char>) -> bool {
    argument == LIST_FLAG_SHORT@ || argument == LIST_FLAG@
}

/// Whether the argument selects a task list.
pub open spec fn is_select_flag(argument: Seq<char>) -> bool {
    argument == SELECT_FLAG_SHORT@ || argument == SELECT_FLAG@
}

/// The invocation of no arguments.
pub open spec fn spec_bare() -> InvocationView {
    InvocationView { list_tasks: false, task_list: None, words: Seq::empty() }
}

/// What the arguments from `at` on add to what was read before them. Flags
/// come first, and the last selection wins; a selection flag that nothing
/// follows selects nothing. The first argument that is no flag begins the
/// text of the task, and everything after it belongs to the text.
pub open spec fn spec_parse_from(arguments: Seq<Seq<char>>, at: int, read: InvocationView)
    -> InvocationView
    decreases arguments.len() - at,
{
    if at < 0 || at >= arguments.len() {
        read
    } else if is_list_flag(arguments[at]) {
        spec_parse_from(arguments, at + 1, InvocationView { list_tasks: true, ..read })
    } else if is_select_flag(arguments[at]) {
        if at + 1 < arguments.len() {
            spec_parse_from(
                arguments,
                at + 2,
                InvocationView { task_list: Some(arguments[at + 1]), ..read },
            )
        } else {
            read
        }
    } else {
        InvocationView { words: arguments.skip(at), ..read }
    }
}

/// What the arguments of the command line, without the program's name, ask for.
pub open spec fn spec_parse(arguments: Seq<Seq<char>>) -> InvocationView {
    spec_parse_from(arguments, 0, spec_bare())
}

/// Whether the text is one of two literals.
fn is_either(text: &String, first: &str, second: &str) -> (yes: bool)
    ensures
        yes == (text@ == first@ || text@ == second@),
{
    *text == String::from_str(first) || *text == String::from_str(second)
}

/// Reads the arguments of the command line, without the program's name.
pub fn parse_arguments(arguments: &Vec<String>) -> (invocation: Invocation)
    ensures
        invocation@ == spec_parse(texts(arguments@)),
{
    let ghost all = texts(arguments@);
    let mut list_tasks = false;
    let mut task_list: Option<String> = None;
    let mut words: Vec<String> = Vec::new();
    let mut i: usize = 0;
    let mut flags = true;
    while flags && i < arguments.len()
        invariant
            i <= arguments.len(),
            all == texts(arguments@),
            words@.len() == 0,
            flags ==> spec_parse(all) == spec_parse_from(
                all,
                i as int,
                InvocationView {
                    list_tasks,
                    task_list: optional_text(task_list),
                    words: Seq::empty(),
                },
            ),
            !flags ==> i < arguments.len() && spec_parse(all) == (InvocationView {
                list_tasks,
                task_list: optional_text(task_list),
                words: all.skip(i as int),
            }),
        decreases arguments.len() - i + (if flags { 1nat } else { 0 }),
    {
        if is_either(&arguments[i], LIST_FLAG_SHORT, LIST_FLAG) {
            list_tasks = true;
            i = i + 1;
        } else if is_either(&arguments[i], SELECT_FLAG_SHORT, SELECT_FLAG) {
            if i + 1 < arguments.len() {
                task_list = Some(arguments[i + 1].clone());
                i = i + 2;
            } else {
                i = i + 1;
            }
        } else {
            flags = false;
        }
    }
    let first: usize = i;
    while i < arguments.len()
        invariant
            first <= i <= arguments.len(),
            all == texts(arguments@),
            texts(words@) == all.subrange(first as int, i as int),
        decreases arguments.len() - i,
    {
        words.push(arguments[i].clone());
        assert(all.subrange(first as int, i + 1) =~= all.subrange(first as int, i as int).push(
            all[i as int],
        ));
        i = i + 1;
    }
    proof {
        if flags {
            assert(all.skip(first as int) =~= Seq::<Seq<char>>::empty());
        }
    }
    Invocation { list_tasks, task_list, words }
}

/// The words with one space between each two.
pub open spec fn joined(words: Seq<Seq<char>>) -> Seq<char>
    decreases words.len(),
{
    if words.len() == 0 {
        Seq::empty()
    } else if words.len() == 1 {
        words.last()
    } else {
        joined(words.drop_last()) + " "@ + words.last()
    }
}

/// What an invocation asks for: with trailing words, a new task of that
/// text; without them and with the list flag, the list of tasks; with
/// neither, nothing. The task list is the one named, else the default.
pub open spec fn spec_plan(invocation: InvocationView, default_list: Seq<char>) -> Result<
    CommandView,
    Error,
> {
    let list = match invocation.task_list {
        Some(name) => name,
        None => default_list,
    };
    if invocation.words.len() > 0 {
        Ok(CommandView::AddTask { list, title: joined(invocation.words) })
    } else if invocation.list_tasks {
        Ok(CommandView::ListTasks { list })
    } else {
        Err(Error::NothingToDo)
    }
}

/// Joins the words with one space between each two.
pub fn join_words(words: &Vec<String>) -> (text: String)
    ensures
        text@ == joined(texts(words@)),
{
    let ghost all = texts(words@);
    let mut text = String::new();
    let mut i: usize = 0;
    while i < words.len()
        invariant
            i <= words.len(),
            all == texts(words@),
            text@ == joined(all.take(i as int)),
        decreases words.len() - i,
    {
        proof {
            assert(all.take(i + 1).drop_last() =~= all.take(i as int));
        }
        if i > 0 {
            text.append(" ");
        }
        text.append(words[i].as_str());
        i = i + 1;
    }
    proof {
        assert(all.take(i as int) =~= all);
    }
    text
}

/// Decides what an invocation asks for.
pub fn plan(invocation: &Invocation, default_list: &str) -> (planned: Result<Command, Error>)
    ensures
        match planned {
            Ok(command) => spec_plan(invocation@, default_list@) == Ok::<CommandView, Error>(
                command@,
            ),
            Err(error) => spec_plan(invocation@, default_list@) == Err::<CommandView, Error>(error),
        },
{
    let list = match &invocation.task_list {
        Some(name) => name.clone(),
        None => String::from_str(default_list),
    };
    if invocation.words.len() > 0 {
        Ok(Command::AddTask { list, title: join_words(&invocation.words) })
    } else if invocation.list_tasks {
        Ok(Command::ListTasks { list })
    } else {
        Err(Error::NothingToDo)
    }
}

/// Where a run of the client stands.
#[derive(Clone, Copy, Debug, PartialEq, Eq, Structural)]
pub enum Stage {
    /// The user is being authenticated.
    Authenticating,
    /// The task lists have been asked for.
    FetchingLists,
    /// The tasks on the chosen list have been asked for.
    FetchingTasks,
    /// The new task has been sent.
    Creating,
    /// The run is over.
    Finished,
}

/// What the caller reports.
#[derive(Debug)]
pub enum DriverEvent {
    /// The authentication put a credential into the store.
    Authenticated,
    /// The service returned the user's task lists.
    Lists(Vec<TaskList>),
    /// The service returned the tasks on the chosen list.
    Tasks(Vec<Task>),
    /// The service created the task.
    Created,
    /// The authentication or the call that was asked for failed.
    Failed(Error),
}

/// What the caller is to do next.
#[derive(Debug)]
pub enum DriverAction {
    /// Run the authentication.
    Authenticate,
    /// Ask the service for the user's task lists.
    FetchLists,
    /// Ask the service for the tasks on this list.
    FetchTasks(TaskList),
    /// Ask the service to create a task with this title on this list.
    CreateTask { list: TaskList, title: String },
    /// Print these tasks: the run succeeded.
    Show(Vec<Task>),
    /// The run succeeded with nothing to print.
    Finish,
    /// Print the error and exit with a failure.
    Abort(Error),
    /// The event does not belong to this stage and was ignored.
    Nothing,
}

/// What a [`DriverEvent`] holds, as mathematical values.
pub enum DriverEventView {
    Authenticated,
    Lists(Seq<TaskListView>),
    Tasks(Seq<TaskView>),
    Created,
    Failed(Error),
}

/// What a [`DriverAction`] holds, as mathematical values.
pub enum DriverActionView {
    Authenticate,
    FetchLists,
    FetchTasks(TaskListView),
    CreateTask { list: TaskListView, title: Seq<char> },
    Show(Seq<TaskView>),
    Finish,
    Abort(Error),
    Nothing,
}

impl View for DriverEvent {
    type V = DriverEventView;

    open spec fn view(&self) -> DriverEventView {
        match self {
            DriverEvent::Authenticated => DriverEventView::Authenticated,
            DriverEvent::Lists(lists) => DriverEventView::Lists(list_views(lists@)),
            DriverEvent::Tasks(tasks) => DriverEventView::Tasks(task_views(tasks@)),
            DriverEvent::Created => DriverEventView::Created,
            DriverEvent::Failed(error) => DriverEventView::Failed(*error),
        }
    }
}

impl View for DriverAction {
    type V = DriverActionView;

    open spec fn view(&self) -> DriverActionView {
        match self {
            DriverAction::Authenticate => DriverActionView::Authenticate,
            DriverAction::FetchLists => DriverActionView::FetchLists,
            DriverAction::FetchTasks(list) => DriverActionView::FetchTasks(list@),
            DriverAction::CreateTask { list, title } => DriverActionView::CreateTask {
                list: list@,
                title: title@,
            },
            DriverAction::Show(tasks) => DriverActionView::Show(task_views(tasks@)),
            DriverAction::Finish => DriverActionView::Finish,
            DriverAction::Abort(error) => DriverActionView::Abort(*error),
            DriverAction::Nothing => DriverActionView::Nothing,
        }
    }
}

impl DriverActionView {
    /// Whether the action is a call to the task service.
    pub open spec fn calls_service(self) -> bool {
        self is FetchLists || self is FetchTasks || self is CreateTask
    }
}

/// How a run begins: with the authentication where no token file exists,
/// else with the request for the task lists.
pub open spec fn spec_begin(token_present: bool) -> (Stage, DriverActionView) {
    if token_present {
        (Stage::FetchingLists, DriverActionView::FetchLists)
    } else {
        (Stage::Authenticating, DriverActionView::Authenticate)
    }
}

/// What the task lists lead to: the call that the command asks for, on the
/// first list of the wanted name; where no list has it, the end of the run
/// with `TaskListNotFound`.
pub open spec fn spec_on_lists(command: CommandView, lists: Seq<TaskListView>) -> (
    Stage,
    DriverActionView,
) {
    match spec_find_task_list(lists, command.list()) {
        Ok(list) => match command {
            CommandView::ListTasks { .. } => (
                Stage::FetchingTasks,
                DriverActionView::FetchTasks(list),
            ),
            CommandView::AddTask { title, .. } => (
                Stage::Creating,
                DriverActionView::CreateTask { list, title },
            ),
        },
        Err(error) => (Stage::Finished, DriverActionView::Abort(error)),
    }
}

/// The transition function of the driver.
pub open spec fn spec_drive(command: CommandView, stage: Stage, event: DriverEventView) -> (
    Stage,
    DriverActionView,
) {
    match (stage, event) {
        (Stage::Finished, _) => (stage, DriverActionView::Nothing),
        (_, DriverEventView::Failed(error)) => (Stage::Finished, DriverActionView::Abort(error)),
        (Stage::Authenticating, DriverEventView::Authenticated) => (
            Stage::FetchingLists,
            DriverActionView::FetchLists,
        ),
        (Stage::FetchingLists, DriverEventView::Lists(lists)) => spec_on_lists(command, lists),
        (Stage::FetchingTasks, DriverEventView::Tasks(tasks)) => (
            Stage::Finished,
            DriverActionView::Show(spec_not_started(tasks)),
        ),
        (Stage::Creating, DriverEventView::Created) => (Stage::Finished, DriverActionView::Finish),
        _ => (stage, DriverActionView::Nothing),
    }
}

/// One run of the client.
#[derive(Debug)]
pub struct Driver {
    command: Command,
    stage: Stage,
}

impl Driver {
    /// What the run is to do.
    pub closed spec fn spec_command(&self) -> CommandView {
        self.command@
    }

    /// Where the run stands.
    pub closed spec fn spec_stage(&self) -> Stage {
        self.stage
    }

    /// Begins a run. `token_present` tells whether the store holds a token file.
    pub fn begin(command: Command, token_present: bool) -> (begun: (Driver, DriverAction))
        ensures
            begun.0.spec_command() == command@,
            (begun.0.spec_stage(), begun.1@) == spec_begin(token_present),
    {
        if token_present {
            (Driver { command, stage: Stage::FetchingLists }, DriverAction::FetchLists)
        } else {
            (Driver { command, stage: Stage::Authenticating }, DriverAction::Authenticate)
        }
    }

    /// Where the run stands.
    #[verifier::when_used_as_spec(spec_stage)]
    pub fn stage(&self) -> (stage: Stage)
        ensures
            stage == self.spec_stage(),
    {
        self.stage
    }

    /// What the run is to do.
    pub fn command(&self) -> (command: &Command)
        ensures
            command@ == self.spec_command(),
    {
        &self.command
    }

    /// Takes the caller's report and decides what is done next.
    pub fn step(&mut self, event: DriverEvent) -> (action: DriverAction)
        ensures
            final(self).spec_command() == old(self).spec_command(),
            (final(self).spec_stage(), action@) == spec_drive(
                old(self).spec_command(),
                old(self).spec_stage(),
                event@,
            ),
    {
        match (self.stage, event) {
            (Stage::Finished, _) => DriverAction::Nothing,
            (_, DriverEvent::Failed(error)) => {
                self.stage = Stage::Finished;
                DriverAction::Abort(error)
            },
            (Stage::Authenticating, DriverEvent::Authenticated) => {
                self.stage = Stage::FetchingLists;
                DriverAction::FetchLists
            },
            (Stage::FetchingLists, DriverEvent::Lists(lists)) => {
                let found = match &self.command {
                    Command::ListTasks { list } => find_task_list(&lists, list.as_str()),
                    Command::AddTask { list, .. } => find_task_list(&lists, list.as_str()),
                };
                match found {
                    Ok(list) => match &self.command {
                        Command::ListTasks { .. } => {
                            self.stage = Stage::FetchingTasks;
                            DriverAction::FetchTasks(list)
                        },
                        Command::AddTask { title, .. } => {
                            let title = title.clone();
                            self.stage = Stage::Creating;
                            DriverAction::CreateTask { list, title }
                        },
                    },
                    Err(error) => {
                        self.stage = Stage::Finished;
                        DriverAction::Abort(error)
                    },
                }
            },
            (Stage::FetchingTasks, DriverEvent::Tasks(tasks)) => {
                self.stage = Stage::Finished;
                DriverAction::Show(not_started(&tasks))
            },
            (Stage::Creating, DriverEvent::Created) => {
                self.stage = Stage::Finished;
                DriverAction::Finish
            },
            _ => DriverAction::Nothing,
        }
    }
}

/// The actions that the driver takes on a sequence of reports, in order.
pub open spec fn spec_drive_run(command: CommandView, stage: Stage, events: Seq<DriverEventView>)
    -> Seq<DriverActionView>
    decreases events.len(),
{
    if events.len() == 0 {
        Seq::empty()
    } else {
        let (next, action) = spec_drive(command, stage, events.first());
        seq![action] + spec_drive_run(command, next, events.drop_first())
    }
}

/// Whether none of the actions is a call to the task service.
pub open spec fn no_service_call(actions: Seq<DriverActionView>) -> bool {
    forall|k: int| 0 <= k < actions.len() ==> !(#[trigger] actions[k]).calls_service()
}

/// Whether no report says that the user was authenticated.
pub open spec fn none_authenticated(events: Seq<DriverEventView>) -> bool {
    forall|i: int| 0 <= i < events.len() ==> !((#[trigger] events[i]) is Authenticated)
}

/// A run that is over stays over: it takes no further action.
pub proof fn lemma_finished_is_final(command: CommandView, events: Seq<DriverEventView>)
    ensures
        no_service_call(spec_drive_run(command, Stage::Finished, events)),
        forall|k: int|
            0 <= k < spec_drive_run(command, Stage::Finished, events).len() ==> (
            #[trigger] spec_drive_run(command, Stage::Finished, events)[k])
                == DriverActionView::Nothing,
    decreases events.len(),
{
    if events.len() > 0 {
        lemma_finished_is_final(command, events.drop_first());
    }
}

/// While the user is not authenticated, the task service is not called.
pub proof fn lemma_no_call_while_unauthenticated(
    command: CommandView,
    events: Seq<DriverEventView>,
)
    requires
        none_authenticated(events),
    ensures
        no_service_call(spec_drive_run(command, Stage::Authenticating, events)),
    decreases events.len(),
{
    if events.len() > 0 {
        let rest = events.drop_first();
        assert forall|i: int| 0 <= i < rest.len() implies !((#[trigger] rest[i])
            is Authenticated) by {
            assert(rest[i] == events[i + 1]);
        }
        let (next, action) = spec_drive(command, Stage::Authenticating, events.first());
        if next == Stage::Finished {
            lemma_finished_is_final(command, rest);
        } else {
            lemma_no_call_while_unauthenticated(command, rest);
        }
    }
}

/// Authentication comes first: without a token file the run begins with the
/// authentication, and whatever is reported, the task service is not called
/// before the authentication is reported as done.
pub proof fn lemma_authentication_first(command: CommandView, events: Seq<DriverEventView>)
    requires
        none_authenticated(events),
    ensures
        spec_begin(false) == (Stage::Authenticating, DriverActionView::Authenticate),
        no_service_call(spec_drive_run(command, spec_begin(false).0, events)),
{
    lemma_no_call_while_unauthenticated(command, events);
}

/// An unknown list ends the run: where no task list has the wanted name, the
/// driver reports `TaskListNotFound`, and whatever is reported after that, it
/// makes no further call.
pub proof fn lemma_unknown_list_ends_run(
    command: CommandView,
    lists: Seq<TaskListView>,
    later: Seq<DriverEventView>,
)
    requires
        !has_named(lists, command.list()),
    ensures
        spec_drive(command, Stage::FetchingLists, DriverEventView::Lists(lists)) == (
            Stage::Finished,
            DriverActionView::Abort(Error::TaskListNotFound),
        ),
        no_service_call(
            spec_drive_run(
                command,
                spec_drive(command, Stage::FetchingLists, DriverEventView::Lists(lists)).0,
                later,
            ),
        ),
{
    lemma_first_named(lists, command.list());
    lemma_finished_is_final(command, later);
}

/// How many calls to the task service can still follow from a stage.
pub open spec fn calls_left(stage: Stage) -> nat {
    match stage {
        Stage::Authenticating => 2,
        Stage::FetchingLists => 1,
        _ => 0,
    }
}

/// How many of the actions are calls to the task service.
pub open spec fn service_calls(actions: Seq<DriverActionView>) -> nat
    decreases actions.len(),
{
    if actions.len() == 0 {
        0
    } else {
        let rest = service_calls(actions.drop_first());
        if actions.first().calls_service() {
            rest + 1
        } else {
            rest
        }
    }
}

/// One invocation makes at most one sequence of calls: the task lists, then
/// the one call that the command asks for.
pub proof fn lemma_calls_bounded(command: CommandView, stage: Stage, events: Seq<DriverEventView>)
    ensures
        service_calls(spec_drive_run(command, stage, events)) <= calls_left(stage),
    decreases events.len(),
{
    if events.len() > 0 {
        let (next, action) = spec_drive(command, stage, events.first());
        lemma_calls_bounded(command, next, events.drop_first());
        let rest = spec_drive_run(command, next, events.drop_first());
        assert((seq![action] + rest).drop_first() =~= rest);
    }
}

} // verus!
