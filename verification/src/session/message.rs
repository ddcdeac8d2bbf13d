use vstd::prelude::*;
use vstd::string::*;
use crate::session::dialog::{DialogKind, DialogKindView, DialogResult, DialogResultView};
use crate::session::keyboard::{Key, KeyView, Modifiers};

verus! {

/// The token of a tab. A session hands out each token once.
#[derive(Clone, Copy, PartialEq, Eq, Structural, Debug, Hash)]
pub struct TabId(pub u64);

/// A change to the text of a document.
#[derive(PartialEq, Eq, Debug)]
pub enum Edit {
    Insert(char),
    Paste(String),
    Enter,
    Backspace,
    Delete,
}

/// An [`Edit`] as contracts see it.
pub enum EditView {
    Insert(char),
    Paste(Seq<char>),
    Enter,
    Backspace,
    Delete,
}

impl View for Edit {
    type V = EditView;

    open spec fn view(&self) -> EditView {
        match self {
            Edit::Insert(c) => EditView::Insert(*c),
            Edit::Paste(text) => EditView::Paste(text@),
            Edit::Enter => EditView::Enter,
            Edit::Backspace => EditView::Backspace,
            Edit::Delete => EditView::Delete,
        }
    }
}

impl Clone for Edit {
    fn clone(&self) -> (edit: Self)
        ensures
            edit@ == self@,
    {
        match self {
            Edit::Insert(c) => Edit::Insert(*c),
            Edit::Paste(text) => Edit::Paste(text.clone()),
            Edit::Enter => Edit::Enter,
            Edit::Backspace => Edit::Backspace,
            Edit::Delete => Edit::Delete,
        }
    }
}

/// The edits of a list as contracts see them.
pub open spec fn edits(list: Seq<Edit>) -> Seq<EditView> {
    list.map_values(|edit: Edit| edit@)
}

/// What the user did in the text widget.
#[derive(PartialEq, Eq, Debug)]
pub enum Action {
    /// The text changes.
    Edit(Edit),
    /// The cursor, the selection or the scroll position changes; the text
    /// stays as it is.
    Other,
}

/// An [`Action`] as contracts see it.
pub enum ActionView {
    Edit(EditView),
    Other,
}

impl View for Action {
    type V = ActionView;

    open spec fn view(&self) -> ActionView {
        match self {
            Action::Edit(edit) => ActionView::Edit(edit@),
            Action::Other => ActionView::Other,
        }
    }
}

impl Clone for Action {
    fn clone(&self) -> (action: Self)
        ensures
            action@ == self@,
    {
        match self {
            Action::Edit(edit) => Action::Edit(edit.clone()),
            Action::Other => Action::Other,
        }
    }
}

impl Action {
    /// Whether the action changes the text.
    pub fn is_edit(&self) -> (edit: bool)
        ensures
            edit == (self@ is Edit),
    {
        match self {
            Action::Edit(_) => true,
            Action::Other => false,
        }
    }
}

/// What comes into the session.
#[derive(PartialEq, Eq, Debug)]
pub enum Message {
    /// The user did something in the text widget of the active document.
    Edit(Action),
    /// The render tree of that tab's text was computed anew.
    Parsed(TabId),
    /// A link in the rendered document was followed.
    Url(String),
    /// Save the active document.
    Save,
    /// The text of that tab's document was written to its path.
    Saved(TabId),

    /// A key went down that no widget took.
    KeyPress(Key, Modifiers),
    /// The file picker has something to tell itself.
    Dialog,

    /// Ask the user where to save.
    SaveAsFilePicker,
    /// The user answered where to save.
    SaveAsFileResult(DialogResult),
    /// Save the active document under this path.
    SaveAs(String),

    /// Ask the user what to open.
    OpenFilePicker,
    /// The user answered what to open.
    OpenFileResult(DialogResult),

    /// Open a document: the file at that path, or an empty one.
    OpenEditor(Option<String>),
    /// Open the home screen.
    OpenHome,
    /// Bring that tab to the front.
    SwitchToTab(TabId),
    /// Close that tab.
    KillTab(TabId),
}

/// A [`Message`] as contracts see it.
pub enum MessageView {
    Edit(ActionView),
    Parsed(TabId),
    Url(Seq<char>),
    Save,
    Saved(TabId),
    KeyPress(KeyView, Modifiers),
    Dialog,
    SaveAsFilePicker,
    SaveAsFileResult(DialogResultView),
    SaveAs(Seq<char>),
    OpenFilePicker,
    OpenFileResult(DialogResultView),
    OpenEditor(Option<Seq<char>>),
    OpenHome,
    SwitchToTab(TabId),
    KillTab(TabId),
}

/// The text of a path that may be missing.
pub open spec fn text_of(path: Option<String>) -> Option<Seq<char>> {
    match path {
        Some(path) => Some(path@),
        None => None,
    }
}

impl View for Message {
    type V = MessageView;

    open spec fn view(&self) -> MessageView {
        match self {
            Message::Edit(action) => MessageView::Edit(action@),
            Message::Parsed(tab) => MessageView::Parsed(*tab),
            Message::Url(url) => MessageView::Url(url@),
            Message::Save => MessageView::Save,
            Message::Saved(tab) => MessageView::Saved(*tab),
            Message::KeyPress(key, modifiers) => MessageView::KeyPress(key@, *modifiers),
            Message::Dialog => MessageView::Dialog,
            Message::SaveAsFilePicker => MessageView::SaveAsFilePicker,
            Message::SaveAsFileResult(result) => MessageView::SaveAsFileResult(result@),
            Message::SaveAs(path) => MessageView::SaveAs(path@),
            Message::OpenFilePicker => MessageView::OpenFilePicker,
            Message::OpenFileResult(result) => MessageView::OpenFileResult(result@),
            Message::OpenEditor(path) => MessageView::OpenEditor(text_of(*path)),
            Message::OpenHome => MessageView::OpenHome,
            Message::SwitchToTab(tab) => MessageView::SwitchToTab(*tab),
            Message::KillTab(tab) => MessageView::KillTab(*tab),
        }
    }
}

impl Clone for Message {
    fn clone(&self) -> (message: Self)
        ensures
            message@ == self@,
    {
        match self {
            Message::Edit(action) => Message::Edit(action.clone()),
            Message::Parsed(tab) => Message::Parsed(*tab),
            Message::Url(url) => Message::Url(url.clone()),
            Message::Save => Message::Save,
            Message::Saved(tab) => Message::Saved(*tab),
            Message::KeyPress(key, modifiers) => Message::KeyPress(key.clone(), *modifiers),
            Message::Dialog => Message::Dialog,
            Message::SaveAsFilePicker => Message::SaveAsFilePicker,
            Message::SaveAsFileResult(result) => Message::SaveAsFileResult(result.clone()),
            Message::SaveAs(path) => Message::SaveAs(path.clone()),
            Message::OpenFilePicker => Message::OpenFilePicker,
            Message::OpenFileResult(result) => Message::OpenFileResult(result.clone()),
            Message::OpenEditor(path) => Message::OpenEditor(
                match path {
                    Some(path) => Some(path.clone()),
                    None => None,
                },
            ),
            Message::OpenHome => Message::OpenHome,
            Message::SwitchToTab(tab) => Message::SwitchToTab(*tab),
            Message::KillTab(tab) => Message::KillTab(*tab),
        }
    }
}

/// The entries of the file menu, and what a key binding can stand for.
#[derive(Debug, Clone, Copy, Eq, PartialEq, Structural)]
pub enum MenuActions {
    Save,
    SaveAs,
    OpenFile,
    NewFile,
    GoHome,
}

/// The message that an entry of the menu sends.
pub open spec fn message_of(action: MenuActions) -> MessageView {
    match action {
        MenuActions::Save => MessageView::Save,
        MenuActions::SaveAs => MessageView::SaveAsFilePicker,
        MenuActions::OpenFile => MessageView::OpenFilePicker,
        MenuActions::NewFile => MessageView::OpenEditor(None),
        MenuActions::GoHome => MessageView::OpenHome,
    }
}

impl MenuActions {
    /// The message that this entry of the menu sends.
    pub fn message(&self) -> (message: Message)
        ensures
            message@ == message_of(*self),
    {
        match self {
            MenuActions::Save => Message::Save,
            MenuActions::SaveAs => Message::SaveAsFilePicker,
            MenuActions::OpenFile => Message::OpenFilePicker,
            MenuActions::NewFile => Message::OpenEditor(None),
            MenuActions::GoHome => Message::OpenHome,
        }
    }
}

/// What is left to do once the session has taken a message. The session only
/// decides: the window, the text widget, the files and the picker are in the
/// hands of whoever runs it.
#[derive(PartialEq, Eq, Debug)]
pub enum Task {
    /// Nothing.
    Nothing,
    /// Send this message to the session next.
    Done(Message),
    /// Put up a file picker of this kind.
    Picker(DialogKind),
    /// Hand the message to the file picker that is up.
    Forward,
    /// Write the text of the active document to this path, and send
    /// [`Message::Saved`] with the active tab once that is done. Send nothing
    /// if the write fails.
    Write(String),
    /// Apply these edits to the text of the active document, in this order,
    /// and have its render tree computed anew; send [`Message::Parsed`] with
    /// the active tab once the tree is there.
    Edit(Vec<Edit>),
    /// Apply the action as it came to the text widget of the active document.
    Perform,
    /// Take the tree that was computed as the render tree of that tab.
    Render(TabId),
    /// Hand this link to the system.
    Open(String),
    /// The active tab holds a new document: load the file at that path as its
    /// text, an empty text where the file cannot be read or no path is given.
    Load(Option<String>),
    /// That tab is gone: drop what is kept for it.
    Close(TabId),
}

/// A [`Task`] as contracts see it.
pub enum TaskView {
    Nothing,
    Done(MessageView),
    Picker(DialogKindView),
    Forward,
    Write(Seq<char>),
    Edit(Seq<EditView>),
    Perform,
    Render(TabId),
    Open(Seq<char>),
    Load(Option<Seq<char>>),
    Close(TabId),
}

impl View for Task {
    type V = TaskView;

    open spec fn view(&self) -> TaskView {
        match self {
            Task::Nothing => TaskView::Nothing,
            Task::Done(message) => TaskView::Done(message@),
            Task::Picker(kind) => TaskView::Picker(kind@),
            Task::Forward => TaskView::Forward,
            Task::Write(path) => TaskView::Write(path@),
            Task::Edit(list) => TaskView::Edit(edits(list@)),
            Task::Perform => TaskView::Perform,
            Task::Render(tab) => TaskView::Render(*tab),
            Task::Open(url) => TaskView::Open(url@),
            Task::Load(path) => TaskView::Load(text_of(*path)),
            Task::Close(tab) => TaskView::Close(*tab),
        }
    }
}

/// The task that sends `message` to the session next.
pub fn task(message: Message) -> (task: Task)
    ensures
        task@ == TaskView::Done(message@),
{
    Task::Done(message)
}

} // verus!
