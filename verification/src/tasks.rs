//! The task service: its entities, the three requests that the client makes,
//! and what is done with the answers.

use crate::error::Error;
use crate::http::{Method, Request, RequestView, Response, ResponseView};
use vstd::prelude::*;
use vstd::string::StringExecFns;

verus! {

/// The collection of the user's task lists.
pub const TASK_LISTS_URL: &'static str = "https://graph.microsoft.com/v1.0/me/todo/lists";

/// The status of a task that nobody has begun.
pub const NOT_STARTED: &'static str = "notStarted";

/// The name of the one field that a new task is created with.
pub const TITLE_FIELD: &'static str = "title";

/// What a [`TaskList`] holds, as mathematical values.
pub struct TaskListView {
    pub display_name: Seq<char>,
    pub id: Seq<char>,
}

/// A named collection of tasks in the remote service.
#[derive(Debug)]
pub struct TaskList {
    pub display_name: String,
    pub id: String,
}

/// What a [`Task`] holds, as mathematical values.
pub struct TaskView {
    pub title: Seq<char>,
    pub status: Seq<char>,
}

/// A task in the remote service.
#[derive(Debug)]
pub struct Task {
    pub title: String,
    /// The status as the service names it: `notStarted`, `completed` and others.
    pub status: String,
}

impl View for TaskList {
    type V = TaskListView;

    open spec fn view(&self) -> TaskListView {
        TaskListView { display_name: self.display_name@, id: self.id@ }
    }
}

impl View for Task {
    type V = TaskView;

    open spec fn view(&self) -> TaskView {
        TaskView { title: self.title@, status: self.status@ }
    }
}

impl Clone for TaskList {
    fn clone(&self) -> (copy: TaskList)
        ensures
            copy@ == self@,
    {
        TaskList { display_name: self.display_name.clone(), id: self.id.clone() }
    }
}

impl Clone for Task {
    fn clone(&self) -> (copy: Task)
        ensures
            copy@ == self@,
    {
        Task { title: self.title.clone(), status: self.status.clone() }
    }
}

impl TaskView {
    /// Whether nobody has begun the task.
    pub open spec fn is_not_started(self) -> bool {
        self.status == NOT_STARTED@
    }
}

/// The views of a sequence of tasks.
pub open spec fn task_views(tasks: Seq<Task>) -> Seq<TaskView> {
    tasks.map_values(|task: Task| task@)
}

/// The views of a sequence of task lists.
pub open spec fn list_views(lists: Seq<TaskList>) -> Seq<TaskListView> {
    lists.map_values(|list: TaskList| list@)
}

/// The JSON text that `serde_json` writes for an object with one field whose
/// value is a string.
pub uninterp spec fn json_object_text(key: Seq<char>, value: Seq<char>) -> Seq<char>;

/// Builds a `serde_json::Value` object with one string field and writes it
/// out through its `Display`, which gives the compact form. The text depends
/// on the key and the value alone.
#[verifier::external_body]
fn json_object(key: &str, value: &str) -> (text: String)
    ensures
        text@ == json_object_text(key@, value@),
{
    let mut fields = serde_json::Map::new();
    fields.insert(key.to_owned(), serde_json::Value::String(value.to_owned()));
    serde_json::Value::Object(fields).to_string()
}

/// The URL of the tasks on the list with this id.
pub open spec fn spec_tasks_url(list_id: Seq<char>) -> Seq<char> {
    TASK_LISTS_URL@ + "/"@ + list_id + "/tasks"@
}

/// The URL of the tasks on the list with this id.
pub fn tasks_url(list_id: &str) -> (url: String)
    ensures
        url@ == spec_tasks_url(list_id@),
{
    let mut url = String::from_str(TASK_LISTS_URL);
    url.append("/");
    url.append(list_id);
    url.append("/tasks");
    url
}

/// The request for the user's task lists.
pub open spec fn spec_task_lists_request() -> RequestView {
    RequestView { method: Method::Get, url: TASK_LISTS_URL@, body: None }
}

/// The request for the tasks on a list.
pub open spec fn spec_tasks_request(list: TaskListView) -> RequestView {
    RequestView { method: Method::Get, url: spec_tasks_url(list.id), body: None }
}

/// The request that creates a task: its body is a JSON object with the title
/// and nothing else.
pub open spec fn spec_create_task_request(list: TaskListView, title: Seq<char>) -> RequestView {
    RequestView {
        method: Method::Post,
        url: spec_tasks_url(list.id),
        body: Some(json_object_text(TITLE_FIELD@, title)),
    }
}

/// The request for the user's task lists.
pub fn task_lists_request() -> (request: Request)
    ensures
        request@ == spec_task_lists_request(),
{
    Request { method: Method::Get, url: String::from_str(TASK_LISTS_URL), body: None }
}

/// The request for the tasks on a list.
pub fn tasks_request(list: &TaskList) -> (request: Request)
    ensures
        request@ == spec_tasks_request(list@),
{
    Request { method: Method::Get, url: tasks_url(list.id.as_str()), body: None }
}

/// The request that creates a task with this title on a list.
pub fn create_task_request(list: &TaskList, title: &str) -> (request: Request)
    ensures
        request@ == spec_create_task_request(list@, title@),
{
    Request {
        method: Method::Post,
        url: tasks_url(list.id.as_str()),
        body: Some(json_object(TITLE_FIELD, title)),
    }
}

/// What an answer means to the client: success from 200 to 299, else the
/// status as a remote failure.
pub open spec fn spec_accept(response: ResponseView) -> Result<(), Error> {
    if response.succeeded() {
        Ok(())
    } else {
        Err(Error::RemoteFailure(response.status))
    }
}

/// Tells a successful answer from a failure of the service.
pub fn accept(response: &Response) -> (outcome: Result<(), Error>)
    ensures
        outcome == spec_accept(response@),
{
    if response.succeeded() {
        Ok(())
    } else {
        Err(Error::RemoteFailure(response.status))
    }
}

/// The tasks that nobody has begun, in the order of the service.
pub open spec fn spec_not_started(tasks: Seq<TaskView>) -> Seq<TaskView> {
    tasks.filter(|task: TaskView| task.is_not_started())
}

/// Keeps the tasks that nobody has begun, in their order.
pub fn not_started(tasks: &Vec<Task>) -> (kept: Vec<Task>)
    ensures
        task_views(kept@) == spec_not_started(task_views(tasks@)),
{
    let wanted = String::from_str(NOT_STARTED);
    let ghost wanted_only = |task: TaskView| task.is_not_started();
    let mut kept: Vec<Task> = Vec::new();
    let mut i: usize = 0;
    proof {
        reveal(Seq::filter);
    }
    while i < tasks.len()
        invariant
            i <= tasks.len(),
            wanted@ == NOT_STARTED@,
            wanted_only == (|task: TaskView| task.is_not_started()),
            task_views(kept@) == task_views(tasks@).take(i as int).filter(wanted_only),
        decreases tasks.len() - i,
    {
        let task = &tasks[i];
        proof {
            let seen = task_views(tasks@).take(i as int);
            assert(task_views(tasks@).take(i + 1) =~= seen.push(task@));
            seen.lemma_filter_push(task@, wanted_only);
        }
        if task.status == wanted {
            kept.push(task.clone());
        }
        i = i + 1;
    }
    proof {
        assert(task_views(tasks@).take(i as int) =~= task_views(tasks@));
    }
    kept
}

/// The first list with this name, if any has it.
pub open spec fn first_named(lists: Seq<TaskListView>, name: Seq<char>) -> Option<TaskListView>
    decreases lists.len(),
{
    if lists.len() == 0 {
        None
    } else if lists.first().display_name == name {
        Some(lists.first())
    } else {
        first_named(lists.drop_first(), name)
    }
}

/// Whether some list has this name.
pub open spec fn has_named(lists: Seq<TaskListView>, name: Seq<char>) -> bool {
    exists|i: int| 0 <= i < lists.len() && (#[trigger] lists[i]).display_name == name
}

/// What a search for a name gives.
pub open spec fn spec_find_task_list(lists: Seq<TaskListView>, name: Seq<char>) -> Result<
    TaskListView,
    Error,
> {
    match first_named(lists, name) {
        Some(list) => Ok(list),
        None => Err(Error::TaskListNotFound),
    }
}

/// A search finds a list exactly where some list has the name, and what it
/// finds is the earliest such list.
pub proof fn lemma_first_named(lists: Seq<TaskListView>, name: Seq<char>)
    ensures
        first_named(lists, name).is_some() == has_named(lists, name),
        first_named(lists, name) matches Some(list) ==> exists|i: int|
            {
                &&& 0 <= i < lists.len()
                &&& #[trigger] lists[i] == list
                &&& list.display_name == name
                &&& forall|j: int| 0 <= j < i ==> (#[trigger] lists[j]).display_name != name
            },
    decreases lists.len(),
{
    if lists.len() > 0 && lists.first().display_name != name {
        let rest = lists.drop_first();
        lemma_first_named(rest, name);
        assert forall|i: int| 0 <= i < rest.len() implies rest[i] == lists[i + 1] by {}
        if has_named(lists, name) {
            let i = choose|i: int| 0 <= i < lists.len() && (#[trigger] lists[i]).display_name == name;
            assert(rest[i - 1].display_name == name);
        }
        if let Some(list) = first_named(lists, name) {
            let i = choose|i: int|
                {
                    &&& 0 <= i < rest.len()
                    &&& #[trigger] rest[i] == list
                    &&& list.display_name == name
                    &&& forall|j: int| 0 <= j < i ==> (#[trigger] rest[j]).display_name != name
                };
            assert(lists[i + 1] == list);
            assert forall|j: int| 0 <= j < i + 1 implies (#[trigger] lists[j]).display_name
                != name by {
                if j > 0 {
                    assert(rest[j - 1] == lists[j]);
                }
            }
        }
    }
}

/// The first task list with this name, or `TaskListNotFound` where none has it.
pub fn find_task_list(lists: &Vec<TaskList>, name: &str) -> (found: Result<TaskList, Error>)
    ensures
        match found {
            Ok(list) => spec_find_task_list(list_views(lists@), name@) == Ok::<
                TaskListView,
                Error,
            >(list@),
            Err(error) => spec_find_task_list(list_views(lists@), name@) == Err::<
                TaskListView,
                Error,
            >(error),
        },
        found.is_ok() == has_named(list_views(lists@), name@),
{
    let wanted = String::from_str(name);
    let ghost all = list_views(lists@);
    let mut i: usize = 0;
    proof {
        assert(all.skip(0) =~= all);
        lemma_first_named(all, name@);
    }
    while i < lists.len()
        invariant
            i <= lists.len(),
            wanted@ == name@,
            all == list_views(lists@),
            first_named(all, name@) == first_named(all.skip(i as int), name@),
        decreases lists.len() - i,
    {
        proof {
            assert(all.skip(i as int).drop_first() =~= all.skip(i + 1));
        }
        if lists[i].display_name == wanted {
            return Ok(lists[i].clone());
        }
        i = i + 1;
    }
    Err(Error::TaskListNotFound)
}

} // verus!
