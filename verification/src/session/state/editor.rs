use vstd::prelude::*;
use vstd::string::*;
use crate::session::Screen;
use crate::session::keyboard::{Key, KeyView, Named, NamedView};
use crate::session::message::{
    Action,
    ActionView,
    Edit,
    EditView,
    Message,
    MessageView,
    Task,
    TaskView,
    edits,
    task,
    text_of,
};
use crate::session::state::{format_path, label, named};
use crate::utils::cfg::flags::Flags;

verus! {

/// The tabulator character.
pub const TAB: char = '\t';

/// What is pasted in place of a tabulator; its second character is taken
/// back at once.
pub const TAB_PASTE: &'static str = "\ta";

/// A document: where it is kept, and whether it has changes that are not
/// kept there yet. Its text and its render tree are with the text widget.
#[derive(Debug, PartialEq, Eq)]
pub struct Editor {
    path: Option<String>,
    dirty: bool,
}

/// An [`Editor`] as contracts see it.
pub struct EditorView {
    pub path: Option<Seq<char>>,
    pub dirty: bool,
}

impl View for Editor {
    type V = EditorView;

    closed spec fn view(&self) -> EditorView {
        EditorView { path: text_of(self.path), dirty: self.dirty }
    }
}

impl Clone for Editor {
    fn clone(&self) -> (editor: Self)
        ensures
            editor@ == self@,
    {
        Editor {
            path: match &self.path {
                Some(path) => Some(path.clone()),
                None => None,
            },
            dirty: self.dirty,
        }
    }
}

/// The edits that are made in place of `edit`. A tabulator is pasted together
/// with a second character, which is deleted at once, so that the widget
/// takes the tabulator as it is; any other edit is made as it came.
pub open spec fn rewritten(edit: EditView) -> Seq<EditView> {
    if edit == EditView::Insert(TAB) {
        seq![EditView::Paste(TAB_PASTE@), EditView::Backspace]
    } else {
        seq![edit]
    }
}

/// What a document makes of a message: the document afterwards and the task.
pub open spec fn editor_step(editor: EditorView, message: MessageView) -> (EditorView, TaskView) {
    match message {
        MessageView::Save => match editor.path {
            Some(path) => (editor, TaskView::Write(path)),
            None => (editor, TaskView::Done(MessageView::SaveAsFilePicker)),
        },
        MessageView::Saved(_) => (EditorView { dirty: false, ..editor }, TaskView::Nothing),
        MessageView::SaveAs(path) => (
            EditorView { path: Some(path), ..editor },
            TaskView::Done(MessageView::Save),
        ),
        MessageView::Edit(ActionView::Edit(edit)) => (
            EditorView { dirty: true, ..editor },
            TaskView::Edit(rewritten(edit)),
        ),
        MessageView::Edit(ActionView::Other) => (editor, TaskView::Perform),
        MessageView::Parsed(tab) => (editor, TaskView::Render(tab)),
        MessageView::Url(url) => (editor, TaskView::Open(url)),
        _ => (editor, TaskView::Nothing),
    }
}

impl Editor {
    /// A document for the file at `path`, or one that has no file yet. It
    /// has no changes to keep.
    pub fn new(path: Option<String>) -> (editor: Self)
        ensures
            editor@ == (EditorView { path: text_of(path), dirty: false }),
    {
        Self { path, dirty: false }
    }

    /// The name of the document: that of its file, or `untitled` where it
    /// has no file yet.
    pub fn name(&self, untitled: &String) -> (name: String)
        ensures
            name@ == match self@.path {
                Some(path) => label(named(path)),
                None => untitled@,
            },
    {
        if let Some(path) = &self.path {
            format_path(path)
        } else {
            untitled.clone()
        }
    }

    /// Whether the document can go without anything being lost.
    pub fn can_close(&self) -> (yes: bool)
        ensures
            yes == !self@.dirty,
    {
        !self.dirty
    }

    /// Where the document is kept, if it is kept anywhere yet.
    pub fn path(&self) -> (path: Option<String>)
        ensures
            text_of(path) == self@.path,
    {
        match &self.path {
            Some(path) => Some(path.clone()),
            None => None,
        }
    }

    /// The edits that put a tabulator into the text. The widget would expand
    /// one that is inserted alone.
    fn hard_tab_hack() -> (list: Vec<Edit>)
        ensures
            edits(list@) == rewritten(EditView::Insert(TAB)),
    {
        let mut list: Vec<Edit> = Vec::new();
        list.push(Edit::Paste(String::from_str(TAB_PASTE)));
        list.push(Edit::Backspace);
        assert(edits(list@) =~= seq![EditView::Paste(TAB_PASTE@), EditView::Backspace]);
        list
    }
}

impl Screen for Editor {
    fn update(&mut self, flags: &Flags, message: Message) -> (task: Task)
        ensures
            (final(self)@, task@) == editor_step(old(self)@, message@),
    {
        match message {
            Message::Save => {
                match &self.path {
                    Some(path) => Task::Write(path.clone()),
                    None => task(Message::SaveAsFilePicker),
                }
            },
            Message::Saved(_) => {
                self.dirty = false;
                Task::Nothing
            },
            Message::SaveAs(path) => {
                self.path = Some(path);
                task(Message::Save)
            },
            Message::Edit(Action::Edit(edit)) => {
                self.dirty = true;
                if let Edit::Insert(TAB) = edit {
                    Task::Edit(Self::hard_tab_hack())
                } else {
                    let mut list: Vec<Edit> = Vec::new();
                    let ghost view = edit@;
                    list.push(edit);
                    assert(edits(list@) =~= seq![view]);
                    Task::Edit(list)
                }
            },
            Message::Edit(Action::Other) => Task::Perform,
            Message::Parsed(tab) => Task::Render(tab),
            Message::Url(url) => Task::Open(url),
            _ => Task::Nothing,
        }
    }
}

/// What a key press in the text widget does, where the editor has a say.
#[derive(PartialEq, Eq, Debug)]
pub enum Binding {
    /// It inserts this character.
    Insert(char),
    /// It inserts these characters, one after the other.
    Sequence(Vec<char>),
}

/// A [`Binding`] as contracts see it.
pub enum BindingView {
    Insert(char),
    Sequence(Seq<char>),
}

impl View for Binding {
    type V = BindingView;

    open spec fn view(&self) -> BindingView {
        match self {
            Binding::Insert(c) => BindingView::Insert(*c),
            Binding::Sequence(list) => BindingView::Sequence(list@),
        }
    }
}

/// What the tabulator key does: it inserts a tabulator, or as many spaces as
/// a tabulator is wide where the settings ask for spaces.
pub open spec fn tab_binding(flags: &Flags) -> BindingView {
    if flags.expand_tabs {
        BindingView::Sequence(Seq::new(flags.tab_len() as nat, |i: int| ' '))
    } else {
        BindingView::Insert(TAB)
    }
}

/// What a press of `key` in the text widget does. `None` leaves the key to
/// the widget.
pub fn key_bindings(key: &Key, flags: &Flags) -> (binding: Option<Binding>)
    ensures
        key@ == KeyView::Named(NamedView::Tab) ==> binding is Some && binding->0@ == tab_binding(
            flags,
        ),
        key@ != KeyView::Named(NamedView::Tab) ==> binding is None,
{
    if let Key::Named(Named::Tab) = key {
        let binding = if flags.expand_tabs {
            let width = flags.tab_len();
            let mut spaces: Vec<char> = Vec::new();
            while spaces.len() < width
                invariant
                    spaces.len() <= width,
                    forall|i: int| 0 <= i < spaces.len() ==> spaces[i] == ' ',
                decreases width - spaces.len(),
            {
                spaces.push(' ');
            }
            assert(spaces@ =~= Seq::new(width as nat, |i: int| ' '));
            Binding::Sequence(spaces)
        } else {
            Binding::Insert(TAB)
        };
        Some(binding)
    } else {
        None
    }
}

} // verus!
