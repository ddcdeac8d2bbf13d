use vstd::prelude::*;
use vstd::string::*;
use crate::session::Screen;
use crate::session::message::{Message, MessageView, Task, TaskView, text_of};
use crate::session::state::editor::{Editor, EditorView, editor_step};
use crate::session::state::home::{Home, HomeView};
use crate::utils::cfg::flags::Flags;
use crate::utils::cfg::recent::{Recent, touched};

pub mod editor;
pub mod home;

verus! {

/// What a tab shows: a document, or the home screen.
#[derive(Debug, PartialEq, Eq)]
pub enum State {
    Editor(Editor),
    Home(Home),
}

/// A [`State`] as contracts see it.
pub enum StateView {
    Editor(EditorView),
    Home(HomeView),
}

impl View for State {
    type V = StateView;

    open spec fn view(&self) -> StateView {
        match self {
            State::Editor(editor) => StateView::Editor(editor@),
            State::Home(home) => StateView::Home(home@),
        }
    }
}

impl Clone for State {
    fn clone(&self) -> (state: Self)
        ensures
            state@ == self@,
    {
        match self {
            State::Editor(editor) => State::Editor(editor.clone()),
            State::Home(home) => State::Home(home.clone()),
        }
    }
}

/// The names that the user reads for what has no name of its own.
pub struct Labels {
    /// The title of the home screen.
    pub home: String,
    /// The title of a document that has no path yet.
    pub new_file: String,
}

/// What opening does, where `message` asks for it: the state that the tab
/// gets and the list of the files opened last afterwards. A document that is
/// opened from a path moves that path to the end of the list; the home screen
/// shows the list as it stands.
pub open spec fn opened(recent: Seq<Seq<char>>, cap: nat, message: MessageView) -> Option<
    (StateView, Seq<Seq<char>>),
> {
    match message {
        MessageView::OpenEditor(Some(path)) => Some(
            (
                StateView::Editor(EditorView { path: Some(path), dirty: false }),
                touched(recent, path, cap),
            ),
        ),
        MessageView::OpenEditor(None) => Some(
            (StateView::Editor(EditorView { path: None, dirty: false }), recent),
        ),
        MessageView::OpenHome => Some((StateView::Home(HomeView { recent }), recent)),
        _ => None,
    }
}

/// What a tab in `state` makes of a message: its state afterwards and the
/// task. Only a document does anything.
pub open spec fn screen_step(state: StateView, message: MessageView) -> (StateView, TaskView) {
    match state {
        StateView::Editor(editor) => (
            StateView::Editor(editor_step(editor, message).0),
            editor_step(editor, message).1,
        ),
        StateView::Home(_) => (state, TaskView::Nothing),
    }
}

impl State {
    /// The state of a fresh tab: the home screen, showing `recent`.
    pub fn new(recent: Recent) -> (state: Self)
        ensures
            state@ == StateView::Home(HomeView { recent: recent@ }),
    {
        Self::Home(Home::new(recent))
    }

    /// Whether a newly opened state may take this one's place, so that
    /// nothing is lost. That holds of the home screen only.
    pub fn can_overwrite(&self) -> (yes: bool)
        ensures
            yes == (self@ is Home),
    {
        matches!(self, Self::Home(_))
    }

    /// The state that `message` asks to open, if it asks for one. Opening a
    /// file records it in `recent`.
    pub fn from_message(flags: &Flags, recent: &mut Recent, message: &Message) -> (state: Option<
        Self,
    >)
        ensures
            match opened(old(recent)@, flags.max_recents() as nat, message@) {
                Some((view, list)) => state is Some && state->0@ == view && final(recent)@ == list,
                None => state is None && final(recent)@ == old(recent)@,
            },
    {
        match message {
            Message::OpenEditor(path) => Some(Self::editor(flags, recent, path)),
            Message::OpenHome => Some(Self::home(recent)),
            _ => None,
        }
    }

    /// The home screen, showing `recent` as it stands.
    pub fn home(recent: &Recent) -> (state: Self)
        ensures
            state@ == StateView::Home(HomeView { recent: recent@ }),
    {
        Self::Home(Home::new(recent.clone()))
    }

    /// A document for `path`, which is recorded in `recent`.
    pub fn editor(flags: &Flags, recent: &mut Recent, path: &Option<String>) -> (state: Self)
        ensures
            state@ == StateView::Editor(EditorView { path: text_of(*path), dirty: false }),
            final(recent)@ == match path {
                Some(path) => touched(old(recent)@, path@, flags.max_recents() as nat),
                None => old(recent)@,
            },
    {
        match path {
            Some(path) => {
                recent.add(flags, path.clone());
                Self::Editor(Editor::new(Some(path.clone())))
            },
            None => Self::Editor(Editor::new(None)),
        }
    }

    /// The title of the tab.
    pub fn title(&self, labels: &Labels) -> (title: String)
        ensures
            title@ == match self@ {
                StateView::Editor(editor) => match editor.path {
                    Some(path) => label(named(path)),
                    None => labels.new_file@,
                },
                StateView::Home(_) => labels.home@,
            },
    {
        match self {
            State::Editor(editor) => editor.name(&labels.new_file),
            State::Home(_) => labels.home.clone(),
        }
    }
}

impl Screen for State {
    fn update(&mut self, flags: &Flags, message: Message) -> (task: Task)
        ensures
            (final(self)@, task@) == screen_step(old(self)@, message@),
    {
        match self {
            State::Editor(editor) => editor.update(flags, message),
            State::Home(home) => home.update(flags, message),
        }
    }
}

/// What stands behind the last `/` of a path, or the whole path where it
/// has no `/`.
pub open spec fn last_segment(path: Seq<char>) -> Seq<char>
    decreases path.len(),
{
    if path.len() == 0 || path.last() == '/' {
        Seq::empty()
    } else {
        last_segment(path.drop_last()).push(path.last())
    }
}

/// The last component of a path, read as `std::path::Path::file_name` reads
/// a path of Unix. The segments of a path are what stands between its `/`.
/// An empty segment and the segment `.` do not count. The last segment that
/// counts is the last component, unless it is `..`: then the path has none.
pub open spec fn final_component(path: Seq<char>) -> Option<Seq<char>>
    decreases path.len(),
{
    let segment = last_segment(path);
    if segment.len() == 0 || segment == seq!['.'] {
        if segment.len() == path.len() {
            None
        } else {
            final_component(path.take(path.len() - segment.len() - 1))
        }
    } else if segment == seq!['.', '.'] {
        None
    } else {
        Some(segment)
    }
}

/// The last component of a path.
fn file_name(path: &String) -> (name: Option<String>)
    ensures
        text_of(name) == final_component(path@),
{
    let text = path.as_str();
    let len = text.unicode_len();
    let mut end: usize = len;
    proof {
        assert(path@.take(len as int) == path@);
    }
    loop
        invariant
            text@ == path@,
            len == path@.len(),
            end <= len,
            final_component(path@) == final_component(path@.take(end as int)),
        decreases end,
    {
        let ghost whole = path@.take(end as int);
        let mut start: usize = end;
        proof {
            assert(whole.subrange(end as int, end as int) =~= Seq::empty());
            assert(whole.take(end as int) == whole);
        }
        while start > 0 && text.get_char(start - 1) != '/'
            invariant
                text@ == path@,
                len == path@.len(),
                start <= end <= len,
                whole == path@.take(end as int),
                last_segment(whole) == last_segment(whole.take(start as int)) + whole.subrange(
                    start as int,
                    end as int,
                ),
            decreases start,
        {
            proof {
                let front = whole.take(start as int);
                assert(front.last() == path@[start - 1]);
                assert(front.drop_last() == whole.take(start - 1));
                assert(whole.subrange(start - 1, end as int) == seq![path@[start - 1]]
                    + whole.subrange(start as int, end as int));
                assert(last_segment(front) + whole.subrange(start as int, end as int)
                    == last_segment(whole.take(start - 1)) + whole.subrange(start - 1, end as int));
            }
            start -= 1;
        }
        let ghost segment = whole.subrange(start as int, end as int);
        proof {
            if start > 0 {
                assert(whole.take(start as int).last() == '/');
            }
            assert(last_segment(whole.take(start as int)) == Seq::<char>::empty());
            assert(last_segment(whole) == segment);
            assert(forall|i: int| 0 <= i < end - start ==> segment[i] == path@[start + i]);
        }
        let size = end - start;
        if size == 0 || (size == 1 && text.get_char(start) == '.') {
            proof {
                if size == 1 {
                    assert(segment =~= seq!['.']);
                }
            }
            if start == 0 {
                return None;
            }
            proof {
                assert(whole.take(whole.len() - segment.len() - 1) == path@.take(start - 1));
            }
            end = start - 1;
        } else if size == 2 && text.get_char(start) == '.' && text.get_char(start + 1) == '.' {
            proof {
                assert(segment =~= seq!['.', '.']);
            }
            return None;
        } else {
            proof {
                if segment == seq!['.'] {
                    assert(segment.len() == 1 && segment[0] == '.');
                }
                if segment == seq!['.', '.'] {
                    assert(segment.len() == 2 && segment[0] == '.' && segment[1] == '.');
                }
            }
            let name = String::from_str(text.substring_char(start, end));
            proof {
                assert(name@ =~= segment);
            }
            return Some(name);
        }
    }
}

/// What is known of the name of a file.
#[derive(Debug, PartialEq, Eq)]
pub enum FileName {
    /// The path has no last component.
    Missing,
    /// The name is no valid text.
    Invalid,
    /// The name.
    Valid(String),
}

/// A [`FileName`] as contracts see it.
pub enum FileNameView {
    Missing,
    Invalid,
    Valid(Seq<char>),
}

impl View for FileName {
    type V = FileNameView;

    open spec fn view(&self) -> FileNameView {
        match self {
            FileName::Missing => FileNameView::Missing,
            FileName::Invalid => FileNameView::Invalid,
            FileName::Valid(name) => FileNameView::Valid(name@),
        }
    }
}

/// What the user reads for a file: its name, or a fixed word where it has
/// none that can be shown.
pub open spec fn label(name: FileNameView) -> Seq<char> {
    match name {
        FileNameView::Missing => "Unnamed"@,
        FileNameView::Invalid => "Invalid Name"@,
        FileNameView::Valid(name) => name,
    }
}

/// What is known of the name of the file at `path`. A path that is text has
/// a name that is text, or none.
pub open spec fn named(path: Seq<char>) -> FileNameView {
    match final_component(path) {
        Some(name) => FileNameView::Valid(name),
        None => FileNameView::Missing,
    }
}

/// What the user reads for a file of which `name` is known.
pub fn format_name(name: FileName) -> (shown: String)
    ensures
        shown@ == label(name@),
{
    match name {
        FileName::Missing => String::from_str("Unnamed"),
        FileName::Invalid => String::from_str("Invalid Name"),
        FileName::Valid(name) => name,
    }
}

/// What the user reads for the file at `path`: the name of the file.
pub fn format_path(path: &String) -> (shown: String)
    ensures
        shown@ == label(named(path@)),
{
    let name = match file_name(path) {
        Some(name) => FileName::Valid(name),
        None => FileName::Missing,
    };
    format_name(name)
}

} // verus!
