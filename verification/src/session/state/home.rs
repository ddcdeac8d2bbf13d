use vstd::prelude::*;
use vstd::string::*;
use crate::session::Screen;
use crate::session::message::{Message, MessageView, Task, TaskView};
use crate::session::state::{format_path, label, named};
use crate::utils::cfg::flags::Flags;
use crate::utils::cfg::recent::{Recent, texts};

verus! {

/// The home screen: the files opened last, as they stood when the screen
/// came up.
#[derive(Debug, PartialEq, Eq)]
pub struct Home {
    pub recent: Recent,
}

/// A [`Home`] as contracts see it.
pub struct HomeView {
    pub recent: Seq<Seq<char>>,
}

impl View for Home {
    type V = HomeView;

    open spec fn view(&self) -> HomeView {
        HomeView { recent: self.recent@ }
    }
}

impl Clone for Home {
    fn clone(&self) -> (home: Self)
        ensures
            home@ == self@,
    {
        Home { recent: self.recent.clone() }
    }
}

/// A button of the home screen: what it says, and the message that a press
/// sends.
#[derive(Debug, PartialEq, Eq)]
pub struct Button {
    pub text: String,
    pub on_press: Message,
}

impl Home {
    /// The home screen, showing `recent`.
    pub fn new(recent: Recent) -> (home: Self)
        ensures
            home@ == (HomeView { recent: recent@ }),
    {
        Self { recent }
    }

    /// One button for each of the files opened last, the latest first. Each
    /// says the name of its file and opens it.
    pub fn recent_buttons(&self) -> (buttons: Vec<Button>)
        ensures
            buttons.len() == self@.recent.len(),
            forall|i: int|
                0 <= i < buttons.len() ==> {
                    let path = #[trigger] self@.recent[buttons.len() - 1 - i];
                    &&& buttons[i].text@ == label(named(path))
                    &&& buttons[i].on_press@ == MessageView::OpenEditor(Some(path))
                },
    {
        let paths = self.recent.get_inner();
        let mut buttons: Vec<Button> = Vec::new();
        let mut left: usize = paths.len();
        while left > 0
            invariant
                left <= paths.len(),
                texts(paths@) == self@.recent,
                buttons.len() == paths.len() - left,
                forall|i: int|
                    0 <= i < buttons.len() ==> {
                        let path = #[trigger] self@.recent[paths.len() - 1 - i];
                        &&& buttons[i].text@ == label(named(path))
                        &&& buttons[i].on_press@ == MessageView::OpenEditor(Some(path))
                    },
            decreases left,
        {
            left -= 1;
            let path = &paths[left];
            assert(texts(paths@)[left as int] == path@);
            buttons.push(
                Button { text: format_path(path), on_press: Message::OpenEditor(Some(path.clone())) },
            );
        }
        buttons
    }
}

impl Screen for Home {
    fn update(&mut self, flags: &Flags, message: Message) -> (task: Task)
        ensures
            final(self)@ == old(self)@,
            task@ == TaskView::Nothing,
    {
        Task::Nothing
    }
}

} // verus!
