use vstd::prelude::*;
use crate::session::dialog::{DialogKindView, DialogManager, is_request, overlay_step};
use crate::session::keyboard::{Key, KeyView, Modifiers};
use crate::session::message::{
    MenuActions,
    Message,
    MessageView,
    TabId,
    Task,
    TaskView,
    message_of,
    task,
};
use crate::session::registry::{
    Registry,
    Tabs,
    lemma_add_tab_keeps,
    lemma_focus_after_close,
    lemma_open_keeps,
    lemma_remove_keeps,
    lemma_replace_keeps,
};
use crate::session::state::{State, StateView, opened, screen_step};
use crate::session::state::editor::EditorView;
use crate::session::state::home::HomeView;
use crate::utils::cfg::flags::{Flags, binds};
use crate::utils::cfg::recent::{Recent, lemma_touched_distinct, newest, touched};
use crate::utils::cfg::script::keybinds::{MenuBind, MenuBindView, matches_press};

pub mod dialog;
pub mod keyboard;
pub mod message;
pub mod registry;
pub mod state;

verus! {

/// What a tab shows can take a message.
pub trait Screen {
    /// Takes a message and says what is left to do.
    fn update(&mut self, flags: &Flags, message: Message) -> Task;
}

/// The entry of the menu that a key press stands for: that of the first
/// binding of the table that the key press matches.
pub open spec fn resolve(
    table: Seq<(MenuBindView, MenuActions)>,
    modifiers: Modifiers,
    key: KeyView,
) -> Option<MenuActions>
    decreases table.len(),
{
    if table.len() == 0 {
        None
    } else if matches_press(table[0].0, modifiers, key) {
        Some(table[0].1)
    } else {
        resolve(table.drop_first(), modifiers, key)
    }
}

/// The entry of the menu that a key press stands for, if it stands for one.
pub fn resolve_press(table: &Vec<(MenuBind, MenuActions)>, modifiers: Modifiers, key: &Key) -> (action:
    Option<MenuActions>)
    ensures
        action == resolve(binds(table@), modifiers, key@),
{
    let ghost all = binds(table@);
    let mut i: usize = 0;
    proof {
        assert(all.skip(0) == all);
    }
    while i < table.len()
        invariant
            i <= table.len(),
            all == binds(table@),
            resolve(all, modifiers, key@) == resolve(all.skip(i as int), modifiers, key@),
        decreases table.len() - i,
    {
        proof {
            assert(all.skip(i as int).drop_first() == all.skip(i as int + 1));
            assert(all.skip(i as int)[0] == (table[i as int].0@, table[i as int].1));
        }
        if table[i].0.matches(modifiers, key) {
            return Some(table[i].1);
        }
        i += 1;
    }
    None
}

/// Where several bindings of the table match a key press, the first of
/// them decides: the key press stands for the entry of the menu of the
/// binding that no matching binding comes before.
pub proof fn lemma_first_match_wins(
    table: Seq<(MenuBindView, MenuActions)>,
    modifiers: Modifiers,
    key: KeyView,
    first: int,
)
    requires
        0 <= first < table.len(),
        matches_press(table[first].0, modifiers, key),
        forall|i: int| 0 <= i < first ==> !matches_press(#[trigger] table[i].0, modifiers, key),
    ensures
        resolve(table, modifiers, key) == Some(table[first].1),
    decreases table.len(),
{
    if first > 0 {
        let rest = table.drop_first();
        assert(!matches_press(table[0].0, modifiers, key));
        assert forall|i: int| 0 <= i < first - 1 implies !matches_press(
            #[trigger] rest[i].0,
            modifiers,
            key,
        ) by {
            assert(rest[i] == table[i + 1]);
        }
        assert(rest[first - 1] == table[first]);
        lemma_first_match_wins(rest, modifiers, key, first - 1);
    }
}

/// A key press that no binding of the table matches stands for nothing, and
/// a key press that stands for nothing matches no binding.
pub proof fn lemma_no_match(
    table: Seq<(MenuBindView, MenuActions)>,
    modifiers: Modifiers,
    key: KeyView,
)
    ensures
        resolve(table, modifiers, key) is None <==> forall|i: int|
            0 <= i < table.len() ==> !matches_press(#[trigger] table[i].0, modifiers, key),
    decreases table.len(),
{
    if table.len() > 0 {
        let rest = table.drop_first();
        lemma_no_match(rest, modifiers, key);
        if matches_press(table[0].0, modifiers, key) {
        } else if resolve(rest, modifiers, key) is None {
            assert forall|i: int| 0 <= i < table.len() implies !matches_press(
                #[trigger] table[i].0,
                modifiers,
                key,
            ) by {
                if i > 0 {
                    assert(rest[i - 1] == table[i]);
                }
            }
        } else {
            let i = choose|i: int|
                0 <= i < rest.len() && matches_press(#[trigger] rest[i].0, modifiers, key);
            assert(rest[i] == table[i + 1]);
        }
    }
}

/// A session as contracts see it.
pub struct Model {
    /// The tabs.
    pub tabs: Tabs,
    /// The file picker that is up, if one is.
    pub overlay: Option<DialogKindView>,
    /// The files opened last, oldest first.
    pub recent: Seq<Seq<char>>,
    /// The settings.
    pub flags: Flags,
}

impl Model {
    /// How many files the list of the files opened last may hold.
    pub open spec fn cap(self) -> nat {
        self.flags.max_recents() as nat
    }

    /// The key bindings, in the order of the script.
    pub open spec fn binds(self) -> Seq<(MenuBindView, MenuActions)> {
        self.flags.bindings()
    }

    /// What holds of a session at all times: its tabs are in order, no file
    /// stands twice among the files opened last, and they are no more than
    /// the settings allow.
    pub open spec fn wf(self) -> bool {
        &&& self.tabs.wf()
        &&& self.recent.no_duplicates()
        &&& self.recent.len() <= self.cap()
    }

    /// A session that has just begun: the home screen in its one tab. Of
    /// the files opened last it keeps as many as the settings allow.
    pub open spec fn fresh(recent: Seq<Seq<char>>, flags: Flags) -> Model {
        let kept = newest(recent, flags.max_recents() as nat);
        Model {
            tabs: Tabs::fresh(StateView::Home(HomeView { recent: kept })),
            overlay: None,
            recent: kept,
            flags,
        }
    }

    /// What the tabs make of a message that is about them: a switch, a
    /// close, or something to open.
    pub open spec fn update_tabs(self, message: MessageView) -> (Model, TaskView) {
        match message {
            MessageView::SwitchToTab(id) => (
                Model { tabs: self.tabs.activate(id), ..self },
                TaskView::Nothing,
            ),
            MessageView::KillTab(id) => (
                Model { tabs: self.tabs.remove(id), ..self },
                if self.tabs.can_remove(id) {
                    TaskView::Close(id)
                } else {
                    TaskView::Nothing
                },
            ),
            _ => match opened(self.recent, self.cap(), message) {
                Some((state, recent)) => if self.tabs.can_open() {
                    (
                        Model { tabs: self.tabs.open(state), recent, ..self },
                        match message {
                            MessageView::OpenEditor(path) => TaskView::Load(path),
                            _ => TaskView::Nothing,
                        },
                    )
                } else {
                    (self, TaskView::Nothing)
                },
                None => (self, TaskView::Nothing),
            },
        }
    }

    /// The task for a key press that a binding names.
    pub open spec fn keybinds(self, message: MessageView) -> Option<TaskView> {
        match message {
            MessageView::KeyPress(key, modifiers) => match resolve(self.binds(), modifiers, key) {
                Some(action) => Some(TaskView::Done(message_of(action))),
                None => None,
            },
            _ => None,
        }
    }

    /// The tab that a message is for: the one that it names, or the one that
    /// has the focus.
    pub open spec fn target(self, message: MessageView) -> TabId {
        match message {
            MessageView::Parsed(tab) => tab,
            MessageView::Saved(tab) => tab,
            _ => self.tabs.active,
        }
    }

    /// What the tab `id` makes of a message. A message for a tab that is
    /// gone is dropped.
    pub open spec fn deliver(self, id: TabId, message: MessageView) -> (Model, TaskView) {
        if self.tabs.states.contains_key(id) {
            (
                Model {
                    tabs: self.tabs.replace(id, screen_step(self.tabs.states[id], message).0),
                    ..self
                },
                screen_step(self.tabs.states[id], message).1,
            )
        } else {
            (self, TaskView::Nothing)
        }
    }

    /// Whether a message is about the tabs.
    pub open spec fn for_tabs(message: MessageView) -> bool {
        message is SwitchToTab || message is KillTab || message is OpenEditor || message is OpenHome
    }

    /// What the session makes of a message: the session afterwards and the
    /// task. The file picker comes first; what it deals with goes no
    /// further. Then come the key bindings, then the tabs, and last what the
    /// tab shows that the message is for.
    pub open spec fn step(self, message: MessageView) -> (Model, TaskView) {
        let next = Model { overlay: overlay_step(self.overlay, message).0, ..self };
        match overlay_step(self.overlay, message).1 {
            Some(task) => (next, task),
            None => match next.keybinds(message) {
                Some(task) => (next, task),
                None => if Model::for_tabs(message) {
                    next.update_tabs(message)
                } else {
                    next.deliver(next.target(message), message)
                },
            },
        }
    }
}

/// Whatever message comes in, the session stays in order: there is a tab,
/// the tab that has the focus is one of the tabs, and the files opened last
/// are within their number and without repeats.
pub proof fn lemma_step_keeps(model: Model, message: MessageView)
    requires
        model.wf(),
    ensures
        model.step(message).0.wf(),
{
    let next = Model { overlay: overlay_step(model.overlay, message).0, ..model };
    if overlay_step(model.overlay, message).1 is None && next.keybinds(message) is None {
        if Model::for_tabs(message) {
            match message {
                MessageView::KillTab(id) => {
                    lemma_remove_keeps(next.tabs, id);
                },
                MessageView::SwitchToTab(id) => {},
                _ => {
                    let (state, recent) = opened(next.recent, next.cap(), message)->0;
                    lemma_open_keeps(next.tabs, state);
                    if let MessageView::OpenEditor(Some(path)) = message {
                        lemma_touched_distinct(next.recent, path, next.cap());
                    }
                },
            }
        } else {
            let id = next.target(message);
            if next.tabs.states.contains_key(id) {
                lemma_replace_keeps(next.tabs, id, screen_step(next.tabs.states[id], message).0);
            }
        }
    }
}

/// A document that is opened takes the place of the home screen where
/// that has the focus, and the number of tabs stays; beside a document it
/// gets a tab of its own, and the number of tabs grows by one. Either way
/// it has the focus afterwards, without changes to keep.
pub proof fn lemma_open_document(model: Model, path: Option<Seq<char>>)
    requires
        model.wf(),
        model.tabs.can_open(),
    ensures
        ({
            let after = model.step(MessageView::OpenEditor(path)).0;
            &&& after.tabs.states[after.tabs.active] == StateView::Editor(
                EditorView { path, dirty: false },
            )
            &&& model.tabs.states[model.tabs.active] is Home ==> after.tabs.order == model.tabs.order
                && after.tabs.active == model.tabs.active
            &&& model.tabs.states[model.tabs.active] is Editor ==> after.tabs.order
                == model.tabs.order.push(after.tabs.active) && after.tabs.order.len()
                == model.tabs.order.len() + 1 && !model.tabs.states.contains_key(
                after.tabs.active,
            ) && forall|id: TabId| #[trigger]
                model.tabs.states.contains_key(id) ==> after.tabs.states.contains_key(id)
                    && after.tabs.states[id] == model.tabs.states[id]
            &&& path matches Some(path) ==> after.recent == touched(model.recent, path, model.cap())
            &&& path is None ==> after.recent == model.recent
        }),
        model.step(MessageView::OpenEditor(path)).1 == TaskView::Load(path),
{
    if model.tabs.states[model.tabs.active] is Editor {
        lemma_add_tab_keeps(model.tabs, StateView::Editor(EditorView { path, dirty: false }));
    }
}

/// Closing the tab that has the focus while there is another hands the
/// focus to the second tab of the tab bar where the first is closed, and to
/// the first where any other is closed.
pub proof fn lemma_kill_tab(model: Model, id: TabId)
    requires
        model.wf(),
        model.tabs.order.len() >= 2,
        model.tabs.active == id,
    ensures
        ({
            let after = model.step(MessageView::KillTab(id)).0;
            &&& model.tabs.order[0] == id ==> after.tabs.active == model.tabs.order[1]
            &&& model.tabs.order[0] != id ==> after.tabs.active == model.tabs.order[0]
            &&& !after.tabs.states.contains_key(id)
            &&& after.tabs.order.len() == model.tabs.order.len() - 1
        }),
        model.step(MessageView::KillTab(id)).1 == TaskView::Close(id),
{
    lemma_focus_after_close(model.tabs, id);
    assert(model.tabs.order.contains(id));
    model.tabs.order.remove_ensures(model.tabs.order.index_of(id));
}

/// While a file picker is up, asking for one changes nothing in the
/// session, and any message that is neither such a request nor the
/// picker's own takes the picker down.
pub proof fn lemma_overlay_first(model: Model, message: MessageView)
    requires
        model.overlay is Some,
    ensures
        is_request(message) ==> model.step(message) == (model, TaskView::Nothing),
        message is Dialog ==> model.step(message) == (model, TaskView::Forward),
        !is_request(message) && !(message is Dialog) ==> model.step(message).0.overlay is None,
{
    let next = Model { overlay: overlay_step(model.overlay, message).0, ..model };
    if !is_request(message) && !(message is Dialog) {
        assert(next.overlay is None);
        assert(model.step(message).0.overlay == next.overlay);
    }
}

/// An entry of the file menu.
#[derive(Clone, Copy, Debug, PartialEq, Eq, Structural)]
pub enum Item {
    Button(MenuActions),
    Divider,
}

/// The entries of the file menu while the tab that has the focus shows
/// `state`. Saving is offered for a document only.
pub open spec fn menu_of(state: StateView) -> Seq<Item> {
    let always = seq![
        Item::Button(MenuActions::OpenFile),
        Item::Button(MenuActions::NewFile),
        Item::Divider,
        Item::Button(MenuActions::GoHome),
    ];
    if state is Editor {
        seq![Item::Button(MenuActions::Save), Item::Button(MenuActions::SaveAs), Item::Divider]
            + always
    } else {
        always
    }
}

/// A session of the editor.
pub struct AstroMark {
    flags: Flags,
    registry: Registry,
    dialog: DialogManager,
    recent: Recent,
}

impl View for AstroMark {
    type V = Model;

    closed spec fn view(&self) -> Model {
        Model {
            tabs: self.registry@,
            overlay: self.dialog@,
            recent: self.recent@,
            flags: self.flags,
        }
    }
}

impl AstroMark {
    /// A session that begins with the home screen, which shows `recent`.
    pub fn init(flags: Flags, recent: Recent) -> (app: Self)
        ensures
            app@ == Model::fresh(recent@, flags),
            app@.wf(),
    {
        let mut recent = recent;
        recent.truncate(&flags);
        let registry = Registry::new(State::new(recent.clone()));
        Self { flags, registry, dialog: DialogManager::new(), recent }
    }

    /// Takes a message and says what is left to do.
    pub fn update(&mut self, message: Message) -> (task: Task)
        requires
            old(self)@.wf(),
        ensures
            (final(self)@, task@) == old(self)@.step(message@),
            final(self)@.wf(),
    {
        if let Some(task) = self.dialog.update(&message) {
            return task;
        }
        if let Some(task) = self.keybinds(&message) {
            return task;
        }
        match message {
            Message::SwitchToTab(_) | Message::KillTab(_) | Message::OpenEditor(_)
            | Message::OpenHome => self.update_tabs(&message),
            Message::Parsed(tab) => self.deliver(tab, message),
            Message::Saved(tab) => self.deliver(tab, message),
            _ => {
                let tab = self.registry.active();
                self.deliver(tab, message)
            },
        }
    }

    /// Adds a tab at the end of the tab bar, which shows `state` and gets the
    /// focus. Returns its token.
    pub fn add_tab(&mut self, state: State) -> (id: TabId)
        requires
            old(self)@.wf(),
            old(self)@.tabs.has_fresh_id(),
        ensures
            final(self)@ == (Model { tabs: old(self)@.tabs.add_tab(state@), ..old(self)@ }),
            final(self)@.wf(),
            id == old(self)@.tabs.next_id(),
            !old(self)@.tabs.states.contains_key(id),
            final(self)@.tabs.active == id,
            final(self)@.tabs.order == old(self)@.tabs.order.push(id),
            final(self)@.tabs.states == old(self)@.tabs.states.insert(id, state@),
    {
        self.registry.add_tab(state)
    }

    /// Gives the focus to `id`. Does nothing where `id` is no tab.
    pub fn activate(&mut self, id: TabId)
        requires
            old(self)@.wf(),
        ensures
            final(self)@ == (Model { tabs: old(self)@.tabs.activate(id), ..old(self)@ }),
            final(self)@.wf(),
    {
        self.registry.activate(id);
    }

    /// Closes `id`, unless it is the only tab or no tab at all. Where `id`
    /// has the focus, the focus goes to the first tab of the tab bar, or to
    /// the second where `id` is the first. Says whether the tab was closed.
    pub fn remove(&mut self, id: TabId) -> (removed: bool)
        requires
            old(self)@.wf(),
        ensures
            final(self)@ == (Model { tabs: old(self)@.tabs.remove(id), ..old(self)@ }),
            final(self)@.wf(),
            removed == old(self)@.tabs.can_remove(id),
    {
        self.registry.remove(id)
    }

    /// Whether a token is left for a new tab.
    pub fn has_fresh_id(&self) -> (yes: bool)
        ensures
            yes == self@.tabs.has_fresh_id(),
    {
        self.registry.has_fresh_id()
    }

    /// Deals with a message that is about the tabs.
    pub fn update_tabs(&mut self, message: &Message) -> (task: Task)
        requires
            old(self)@.wf(),
        ensures
            (final(self)@, task@) == old(self)@.update_tabs(message@),
            final(self)@.wf(),
    {
        match message {
            Message::SwitchToTab(id) => {
                self.registry.activate(*id);
                Task::Nothing
            },
            Message::KillTab(id) => {
                if self.registry.remove(*id) {
                    Task::Close(*id)
                } else {
                    Task::Nothing
                }
            },
            Message::OpenEditor(_) | Message::OpenHome => {
                if !self.registry.current().can_overwrite() && !self.registry.has_fresh_id() {
                    return Task::Nothing;
                }
                proof {
                    if let MessageView::OpenEditor(Some(path)) = message@ {
                        lemma_touched_distinct(self.recent@, path, self.flags.max_recents() as nat);
                    }
                }
                match State::from_message(&self.flags, &mut self.recent, message) {
                    Some(new) => {
                        self.registry.open(new);
                        match message {
                            Message::OpenEditor(Some(path)) => Task::Load(Some(path.clone())),
                            Message::OpenEditor(None) => Task::Load(None),
                            _ => Task::Nothing,
                        }
                    },
                    None => Task::Nothing,
                }
            },
            _ => Task::Nothing,
        }
    }

    /// The task for a key press that a binding names.
    pub fn keybinds(&self, message: &Message) -> (task: Option<Task>)
        ensures
            crate::session::dialog::handled(task) == self@.keybinds(message@),
    {
        if let Message::KeyPress(key, modifiers) = message {
            let table = self.flags.general_keybinds();
            if let Some(action) = resolve_press(&table, *modifiers, key) {
                return Some(task(action.message()));
            }
        }
        None
    }

    /// Hands a message to what the tab `id` shows.
    fn deliver(&mut self, id: TabId, message: Message) -> (task: Task)
        requires
            old(self)@.wf(),
        ensures
            (final(self)@, task@) == old(self)@.deliver(id, message@),
            final(self)@.wf(),
    {
        let ghost before = self@;
        match self.registry.get(id) {
            Some(State::Editor(editor)) => {
                let mut state = State::Editor(editor.clone());
                let task = state.update(&self.flags, message);
                self.registry.replace(id, state);
                task
            },
            Some(State::Home(_)) => {
                proof {
                    assert(before.tabs.states.insert(id, before.tabs.states[id])
                        =~= before.tabs.states);
                }
                Task::Nothing
            },
            None => Task::Nothing,
        }
    }

    /// What the tab shows that has the focus.
    pub fn current_state(&self) -> (state: &State)
        requires
            self@.wf(),
        ensures
            state@ == self@.tabs.states[self@.tabs.active],
            self@.tabs.states.contains_key(self@.tabs.active),
    {
        self.registry.current()
    }

    /// What `id` shows, if it is a tab.
    pub fn state(&self, id: TabId) -> (state: Option<&State>)
        ensures
            match state {
                Some(state) => self@.tabs.states.contains_key(id) && state@
                    == self@.tabs.states[id],
                None => !self@.tabs.states.contains_key(id),
            },
    {
        self.registry.get(id)
    }

    /// The tab that has the focus.
    pub fn active(&self) -> (id: TabId)
        ensures
            id == self@.tabs.active,
    {
        self.registry.active()
    }

    /// The tabs in the order of the tab bar.
    pub fn order(&self) -> (order: &[TabId])
        ensures
            order@ == self@.tabs.order,
    {
        self.registry.order()
    }

    /// Whether the tab bar is shown. One tab alone needs none.
    pub fn shows_tab_bar(&self) -> (yes: bool)
        ensures
            yes == (self@.tabs.order.len() > 1),
    {
        self.registry.len() > 1
    }

    /// The file picker.
    pub fn dialog(&self) -> (dialog: &DialogManager)
        ensures
            dialog@ == self@.overlay,
    {
        &self.dialog
    }

    /// The files opened last.
    pub fn recent(&self) -> (recent: &Recent)
        ensures
            recent@ == self@.recent,
    {
        &self.recent
    }

    /// The settings.
    pub fn flags(&self) -> (flags: &Flags)
        ensures
            *flags == self@.flags,
    {
        &self.flags
    }

    /// The entries of the file menu.
    pub fn menu_bar(&self) -> (items: Vec<Item>)
        requires
            self@.wf(),
        ensures
            items@ == menu_of(self@.tabs.states[self@.tabs.active]),
    {
        let mut file_menu: Vec<Item> = Vec::new();
        if let State::Editor(_) = self.current_state() {
            file_menu.push(Item::Button(MenuActions::Save));
            file_menu.push(Item::Button(MenuActions::SaveAs));
            file_menu.push(Item::Divider);
        }
        file_menu.push(Item::Button(MenuActions::OpenFile));
        file_menu.push(Item::Button(MenuActions::NewFile));
        file_menu.push(Item::Divider);
        file_menu.push(Item::Button(MenuActions::GoHome));
        proof {
            assert(file_menu@ =~= menu_of(self@.tabs.states[self@.tabs.active]));
        }
        file_menu
    }
}

} // verus!
