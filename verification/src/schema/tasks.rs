//! Task types: long-running requests whose results are fetched later.

use vstd::prelude::*;

use crate::json::JsonObject;

use super::jsonrpc::Cursor;
use super::requests::PaginatedResult;

verus! {

/// The status of a task.
#[derive(Debug, Clone, Copy, PartialEq, Eq)]
pub enum TaskStatus {
    /// The task is running.
    Working,
    /// The task waits for input from the requester.
    InputRequired,
    /// The task finished successfully.
    Completed,
    /// The task finished with an error.
    Failed,
    /// The task was cancelled.
    Cancelled,
}

/// Metadata for augmenting a request with task execution.
#[derive(Debug, Clone, Default)]
pub struct TaskMetadata {
    /// Requested duration in milliseconds to retain task from creation.
    pub ttl: Option<u64>,
}

/// Metadata for associating messages with a task.
#[derive(Debug, Clone)]
pub struct RelatedTaskMetadata {
    /// The task identifier this message is associated with.
    pub task_id: String,
}

/// Data associated with a task.
#[derive(Debug, Clone)]
pub struct Task {
    /// The task identifier.
    pub task_id: String,
    /// Current task state.
    pub status: TaskStatus,
    /// Optional human-readable message describing the current task state.
    pub status_message: Option<String>,
    /// ISO 8601 timestamp when the task was created.
    pub created_at: String,
    /// ISO 8601 timestamp when the task was last updated.
    pub last_updated_at: String,
    /// Actual retention duration from creation in milliseconds, `None` for
    /// unlimited.
    pub ttl: Option<u64>,
    /// Suggested polling interval in milliseconds.
    pub poll_interval: Option<u64>,
}

/// A response to a task-augmented request.
#[derive(Debug, Clone)]
pub struct CreateTaskResult {
    /// The created task.
    pub task: Task,
    /// Reserved metadata.
    pub _meta: Option<JsonObject>,
}

/// Parameters for tasks/get, tasks/result, and tasks/cancel requests.
#[derive(Debug, Clone)]
pub struct TaskIdParams {
    /// The task identifier to query.
    pub task_id: String,
}

/// Parameters for a tasks/get request.
pub type GetTaskRequestParams = TaskIdParams;

/// Parameters for a tasks/result request.
pub type GetTaskPayloadRequestParams = TaskIdParams;

/// Parameters for a tasks/cancel request.
pub type CancelTaskRequestParams = TaskIdParams;

/// The response to a tasks/get request.
#[derive(Debug, Clone)]
pub struct GetTaskResult {
    /// The task's current data.
    pub task: Task,
    /// Reserved metadata.
    pub _meta: Option<JsonObject>,
}

/// The response to a tasks/cancel request.
#[derive(Debug, Clone)]
pub struct CancelTaskResult {
    /// The task's data after cancellation.
    pub task: Task,
    /// Reserved metadata.
    pub _meta: Option<JsonObject>,
}

/// The response to a tasks/list request.
#[derive(Debug, Clone)]
pub struct ListTasksResult {
    /// Pagination data.
    pub page: PaginatedResult,
    /// The tasks on this page.
    pub tasks: Vec<Task>,
}

impl ListTasksResult {
    /// Create an empty task list.
    pub fn new() -> (r: Self)
        ensures
            r.page.next_cursor is None,
            r.page._meta is None,
            r.tasks@.len() == 0,
    {
        ListTasksResult { page: PaginatedResult { next_cursor: None, _meta: None }, tasks: Vec::new() }
    }

    /// Add a task to the result list.
    pub fn with_task(self, task: Task) -> (r: Self)
        ensures
            r.tasks@ == self.tasks@.push(task),
            r.page == self.page,
    {
        let mut s = self;
        s.tasks.push(task);
        s
    }

    /// Add multiple tasks to the result list, after those already there.
    pub fn with_tasks(self, tasks: Vec<Task>) -> (r: Self)
        ensures
            r.tasks@ == self.tasks@ + tasks@,
            r.page == self.page,
    {
        let mut s = self;
        let mut more = tasks;
        s.tasks.append(&mut more);
        s
    }

    /// Set the pagination cursor for the next page.
    pub fn with_cursor(self, cursor: &str) -> (r: Self)
        ensures
            r.page.next_cursor matches Some(c) && c@ == cursor@,
            r.page._meta == self.page._meta,
            r.tasks == self.tasks,
    {
        let mut s = self;
        s.page.next_cursor = Some(Cursor::new(cursor));
        s
    }
}

impl Default for ListTasksResult {
    fn default() -> (r: Self)
        ensures
            r.page.next_cursor is None,
            r.page._meta is None,
            r.tasks@.len() == 0,
    {
        ListTasksResult::new()
    }
}

} // verus!
