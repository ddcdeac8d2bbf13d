use vstd::prelude::*;
use vstd::string::*;
use crate::session::message::{Message, MessageView, Task, TaskView, task};
use crate::utils::cfg::recent::{copy_paths, texts};

verus! {

/// What a file picker is for.
#[derive(PartialEq, Eq, Debug)]
pub enum DialogKind {
    /// Choosing a file to open.
    OpenFile,
    /// Choosing where to save, with a name to start from.
    SaveFile { filename: String },
}

/// A [`DialogKind`] as contracts see it.
pub enum DialogKindView {
    OpenFile,
    SaveFile { filename: Seq<char> },
}

impl View for DialogKind {
    type V = DialogKindView;

    open spec fn view(&self) -> DialogKindView {
        match self {
            DialogKind::OpenFile => DialogKindView::OpenFile,
            DialogKind::SaveFile { filename } => DialogKindView::SaveFile { filename: filename@ },
        }
    }
}

impl Clone for DialogKind {
    fn clone(&self) -> (kind: Self)
        ensures
            kind@ == self@,
    {
        match self {
            DialogKind::OpenFile => DialogKind::OpenFile,
            DialogKind::SaveFile { filename } => DialogKind::SaveFile { filename: filename.clone() },
        }
    }
}

/// How a file picker ended.
#[derive(PartialEq, Eq, Debug)]
pub enum DialogResult {
    /// The user gave up.
    Cancel,
    /// The user chose these paths; there may be none.
    Open(Vec<String>),
}

/// A [`DialogResult`] as contracts see it.
pub enum DialogResultView {
    Cancel,
    Open(Seq<Seq<char>>),
}

impl View for DialogResult {
    type V = DialogResultView;

    open spec fn view(&self) -> DialogResultView {
        match self {
            DialogResult::Cancel => DialogResultView::Cancel,
            DialogResult::Open(paths) => DialogResultView::Open(texts(paths@)),
        }
    }
}

impl Clone for DialogResult {
    fn clone(&self) -> (result: Self)
        ensures
            result@ == self@,
    {
        match self {
            DialogResult::Cancel => DialogResult::Cancel,
            DialogResult::Open(paths) => DialogResult::Open(copy_paths(paths.as_slice())),
        }
    }
}

/// The name that a document without a path is saved under, unless the user
/// types another.
pub const DEFAULT_NAME: &'static str = "unnamed.md";

/// A task that may be missing, as contracts see it.
pub open spec fn handled(task: Option<Task>) -> Option<TaskView> {
    match task {
        Some(task) => Some(task@),
        None => None,
    }
}

/// What a request for a picker of `kind` does to the overlay: it puts the
/// picker up where none is up, and changes nothing where one is. Either way
/// the request is dealt with.
pub open spec fn requested(overlay: Option<DialogKindView>, kind: DialogKindView) -> (
    Option<DialogKindView>,
    Option<TaskView>,
) {
    if overlay is None {
        (Some(kind), Some(TaskView::Picker(kind)))
    } else {
        (overlay, Some(TaskView::Nothing))
    }
}

/// What the overlay makes of a message: the overlay afterwards, and the task
/// if the message was the overlay's to deal with. `None` in place of a task
/// leaves the message to the rest of the session.
///
/// A choice of several paths counts as a choice of the first; a choice of none
/// leads to nothing. Whatever is no business of the picker takes it down.
pub open spec fn overlay_step(overlay: Option<DialogKindView>, message: MessageView) -> (
    Option<DialogKindView>,
    Option<TaskView>,
) {
    match message {
        MessageView::Dialog => (
            overlay,
            Some(
                if overlay is Some {
                    TaskView::Forward
                } else {
                    TaskView::Nothing
                },
            ),
        ),
        MessageView::OpenFilePicker => requested(overlay, DialogKindView::OpenFile),
        MessageView::SaveAsFilePicker => requested(
            overlay,
            DialogKindView::SaveFile { filename: DEFAULT_NAME@ },
        ),
        MessageView::OpenFileResult(DialogResultView::Open(paths)) => (
            None,
            Some(
                if paths.len() > 0 {
                    TaskView::Done(MessageView::OpenEditor(Some(paths[0])))
                } else {
                    TaskView::Nothing
                },
            ),
        ),
        MessageView::SaveAsFileResult(DialogResultView::Open(paths)) => (
            None,
            Some(
                if paths.len() > 0 {
                    TaskView::Done(MessageView::SaveAs(paths[0]))
                } else {
                    TaskView::Nothing
                },
            ),
        ),
        _ => (None, None),
    }
}

/// The one file picker that may be up at a time.
pub struct DialogManager(Option<DialogKind>);

impl View for DialogManager {
    type V = Option<DialogKindView>;

    closed spec fn view(&self) -> Option<DialogKindView> {
        match self.0 {
            Some(kind) => Some(kind@),
            None => None,
        }
    }
}

impl DialogManager {
    /// No picker is up.
    pub fn new() -> (manager: Self)
        ensures
            manager@ is None,
    {
        Self(None)
    }

    /// The kind of the picker that is up, if one is.
    pub fn kind(&self) -> (kind: Option<DialogKind>)
        ensures
            kind is Some == self@ is Some,
            kind matches Some(kind) ==> self@ == Some(kind@),
    {
        match &self.0 {
            Some(kind) => Some(kind.clone()),
            None => None,
        }
    }

    /// Takes a message before the rest of the session sees it. Where a task
    /// comes back the message is dealt with, and nobody else gets it.
    pub fn update(&mut self, message: &Message) -> (task: Option<Task>)
        ensures
            (final(self)@, handled(task)) == overlay_step(old(self)@, message@),
    {
        match message {
            Message::Dialog => {
                if self.0.is_some() {
                    Some(Task::Forward)
                } else {
                    Some(Task::Nothing)
                }
            },
            Message::OpenFilePicker => self.picker(DialogKind::OpenFile),
            Message::OpenFileResult(DialogResult::Open(paths)) => {
                self.0 = None;
                match result(paths.as_slice()) {
                    Some(path) => Some(task(Message::OpenEditor(Some(path)))),
                    None => Some(Task::Nothing),
                }
            },
            Message::SaveAsFilePicker => self.picker(
                DialogKind::SaveFile { filename: String::from_str(DEFAULT_NAME) },
            ),
            Message::SaveAsFileResult(DialogResult::Open(paths)) => {
                self.0 = None;
                match result(paths.as_slice()) {
                    Some(path) => Some(task(Message::SaveAs(path))),
                    None => Some(Task::Nothing),
                }
            },
            _ => {
                self.0 = None;
                None
            },
        }
    }

    fn picker(&mut self, kind: DialogKind) -> (task: Option<Task>)
        ensures
            (final(self)@, handled(task)) == requested(old(self)@, kind@),
    {
        if self.0.is_none() {
            self.0 = Some(kind.clone());
            Some(Task::Picker(kind))
        } else {
            Some(Task::Nothing)
        }
    }
}

/// The first of the paths that the user chose.
fn result(paths: &[String]) -> (path: Option<String>)
    ensures
        paths@.len() == 0 ==> path is None,
        paths@.len() > 0 ==> path is Some && path->0@ == paths@[0]@,
{
    if paths.len() > 0 {
        Some(paths[0].clone())
    } else {
        None
    }
}

/// Whether a message asks for a picker.
pub open spec fn is_request(message: MessageView) -> bool {
    message is OpenFilePicker || message is SaveAsFilePicker
}

/// A request for a picker while one is up changes nothing: the picker that is
/// up stays up, of the kind it was, and no second one is put up.
pub proof fn lemma_second_request_ignored(kind: DialogKindView, message: MessageView)
    requires
        is_request(message),
    ensures
        overlay_step(Some(kind), message) == (Some(kind), Some(TaskView::Nothing)),
{
}

/// A request for a picker while none is up puts one up.
pub proof fn lemma_first_request_wins(message: MessageView)
    requires
        is_request(message),
    ensures
        overlay_step(None, message).0 is Some,
        overlay_step(None, message).1 == Some(TaskView::Picker(overlay_step(None, message).0->0)),
{
}

/// Any message but a request and the picker's own takes the picker down.
pub proof fn lemma_other_message_clears(overlay: Option<DialogKindView>, message: MessageView)
    requires
        !is_request(message),
        !(message is Dialog),
    ensures
        overlay_step(overlay, message).0 is None,
{
}

/// The picker's own messages leave the overlay as it is.
pub proof fn lemma_dialog_message_keeps(overlay: Option<DialogKindView>)
    ensures
        overlay_step(overlay, MessageView::Dialog).0 == overlay,
        overlay_step(overlay, MessageView::Dialog).1 is Some,
{
}

} // verus!
