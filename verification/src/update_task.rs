//! Requests to change the due date of a task.

use vstd::prelude::*;
use crate::filter_tasks::{copy_optional_text, optional_text, Task};

verus! {

/// A new due date for a task, with the language and the display text that the
/// task's due date came with.
#[derive(Clone, Debug, PartialEq, Eq)]
pub struct DueUpdate {
    pub task_id: String,
    pub due_date: String,
    pub due_lang: Option<String>,
    pub due_string: Option<String>,
}

/// Whether `update` gives `task` the due date `due_date` and changes nothing
/// else: it names the task, and carries the language and the display text of
/// the task's due date as they were.
pub open spec fn is_update_of(update: DueUpdate, task: Task, due_date: Seq<char>) -> bool {
    &&& update.task_id@ == task.id@
    &&& update.due_date@ == due_date
    &&& optional_text(update.due_lang) == optional_text(task.due.lang)
    &&& optional_text(update.due_string) == optional_text(task.due.string)
}

/// The update that gives `task` the due date `due_date`.
pub fn due_update_for(task: &Task, due_date: String) -> (update: DueUpdate)
    ensures
        is_update_of(update, *task, due_date@),
{
    DueUpdate {
        task_id: task.id.clone(),
        due_date,
        due_lang: copy_optional_text(&task.due.lang),
        due_string: copy_optional_text(&task.due.string),
    }
}

/// The address, below the service's root, at which tasks are updated.
pub open spec fn tasks_path() -> Seq<char> {
    "tasks/"@
}

/// The request that carries an update to the service: where it goes, and the
/// fields that it sends, by name.
#[derive(Clone, Debug, PartialEq, Eq)]
pub struct TaskUpdateRequest {
    pub path: String,
    pub fields: Vec<(String, String)>,
}

/// The fields of a request as texts.
pub open spec fn field_texts(fields: Seq<(String, String)>) -> Seq<(Seq<char>, Seq<char>)> {
    fields.map_values(|f: (String, String)| (f.0@, f.1@))
}

/// The fields that an update sends: always the due date, then the language
/// and the display text where the update has them.
pub open spec fn update_fields(
    due_date: Seq<char>,
    due_lang: Option<Seq<char>>,
    due_string: Option<Seq<char>>,
) -> Seq<(Seq<char>, Seq<char>)> {
    let date = seq![("due_date"@, due_date)];
    let lang = match due_lang {
        Some(text) => seq![("due_lang"@, text)],
        None => Seq::empty(),
    };
    let string = match due_string {
        Some(text) => seq![("due_string"@, text)],
        None => Seq::empty(),
    };
    date + lang + string
}

/// Builds the request that sets the due date of the task `task_id`. The
/// language and the display text are sent along whenever they are there, so
/// that the service goes on showing the due date as before.
pub fn update_task_due(
    task_id: &str,
    due_date: String,
    due_lang: Option<String>,
    due_string: Option<String>,
) -> (request: TaskUpdateRequest)
    ensures
        request.path@ == tasks_path() + task_id@,
        field_texts(request.fields@) == update_fields(
            due_date@,
            optional_text(due_lang),
            optional_text(due_string),
        ),
{
    let path = String::from_str("tasks/").concat(task_id);
    let mut fields: Vec<(String, String)> = Vec::new();
    fields.push((String::from_str("due_date"), due_date));
    if let Some(text) = due_lang {
        fields.push((String::from_str("due_lang"), text));
    }
    if let Some(text) = due_string {
        fields.push((String::from_str("due_string"), text));
    }
    assert(field_texts(fields@) =~= update_fields(
        due_date@,
        optional_text(due_lang),
        optional_text(due_string),
    ));
    TaskUpdateRequest { path, fields }
}

} // verus!
