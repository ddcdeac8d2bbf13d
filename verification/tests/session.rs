use astromark::session::dialog::{DialogKind, DialogResult};
use astromark::session::keyboard::{Key, Modifiers, Named};
use astromark::session::message::{Action, Edit, MenuActions, Message, TabId, Task};
use astromark::session::state::editor::Editor;
use astromark::session::state::State;
use astromark::session::{resolve_press, AstroMark, Item};
use astromark::utils::cfg::flags::{Field, Flags, Record};
use astromark::utils::cfg::recent::Recent;
use astromark::utils::cfg::script::keybinds::{self, Keybind, MenuBind, Modifier, Value};

fn fresh() -> AstroMark {
    AstroMark::init(Flags::default(), Recent::default())
}

fn open(app: &mut AstroMark, path: &str) -> Task {
    app.update(Message::OpenEditor(Some(path.to_string())))
}

fn document(app: &AstroMark) -> &Editor {
    match app.current_state() {
        State::Editor(editor) => editor,
        State::Home(_) => panic!("the home screen has the focus"),
    }
}

fn recents(app: &AstroMark) -> Vec<&str> {
    app.recent().get_inner().iter().map(|p| p.as_str()).collect()
}

fn ctrl() -> Modifiers {
    Modifiers { control: true, ..Modifiers::none() }
}

fn binding(action: MenuActions, key: &str, modifiers: &[&str]) -> Record {
    let keys = modifiers
        .iter()
        .map(|name| Value::Key(keybinds::Key::new(name.to_string())))
        .collect();
    Record::Fields(vec![
        Field { name: "action".to_string(), value: Value::Action(action) },
        Field {
            name: "keybind".to_string(),
            value: Value::Keybind(Keybind::new(keybinds::Key::new(key.to_string()), keys)),
        },
    ])
}

/// Three documents side by side, the last has the focus.
fn three() -> (AstroMark, Vec<TabId>) {
    let mut app = fresh();
    open(&mut app, "/a.md");
    open(&mut app, "/b.md");
    open(&mut app, "/c.md");
    let order = app.order().to_vec();
    (app, order)
}

#[test]
fn session_begins_with_the_home_screen() {
    let app = fresh();
    assert_eq!(app.order().len(), 1);
    assert_eq!(app.active(), app.order()[0]);
    assert!(matches!(app.current_state(), State::Home(_)));
    assert_eq!(app.dialog().kind(), None);
    assert!(!app.shows_tab_bar());
    assert!(app.has_fresh_id());
}

#[test]
fn session_begins_with_no_more_recents_than_allowed() {
    let recent = Recent::from_paths(vec!["a".to_string(), "b".to_string(), "c".to_string()]);
    let app = AstroMark::init(Flags { max_recents: 2, ..Flags::default() }, recent);
    assert_eq!(recents(&app), vec!["b", "c"]);
    match app.current_state() {
        State::Home(home) => assert_eq!(home.recent, *app.recent()),
        State::Editor(_) => panic!("a document has the focus"),
    }
}

#[test]
fn open_over_the_home_screen_replaces_it_in_place() {
    let mut app = fresh();
    let home = app.active();
    let task = open(&mut app, "/tmp/a.md");
    assert_eq!(task, Task::Load(Some("/tmp/a.md".to_string())));
    assert_eq!(app.order(), &[home]);
    assert_eq!(app.active(), home);
    assert_eq!(document(&app).path(), Some("/tmp/a.md".to_string()));
    assert!(document(&app).can_close());
    assert_eq!(recents(&app), vec!["/tmp/a.md"]);
}

#[test]
fn open_beside_a_document_adds_a_tab() {
    let mut app = fresh();
    open(&mut app, "/a.md");
    let first = app.active();
    let task = open(&mut app, "/b.md");
    assert_eq!(task, Task::Load(Some("/b.md".to_string())));
    assert_eq!(app.order().len(), 2);
    assert_eq!(app.order()[0], first);
    assert_eq!(app.order()[1], app.active());
    assert_ne!(app.active(), first);
    assert_eq!(document(&app).path(), Some("/b.md".to_string()));
    assert_eq!(
        app.state(first),
        Some(&State::Editor(Editor::new(Some("/a.md".to_string()))))
    );
    assert_eq!(recents(&app), vec!["/a.md", "/b.md"]);
    assert!(app.shows_tab_bar());
}

#[test]
fn new_document_has_no_path_and_is_not_recorded() {
    let mut app = fresh();
    let task = app.update(Message::OpenEditor(None));
    assert_eq!(task, Task::Load(None));
    assert_eq!(document(&app).path(), None);
    assert!(recents(&app).is_empty());
}

#[test]
fn home_beside_a_document_adds_a_tab_with_the_recents() {
    let mut app = fresh();
    open(&mut app, "/a.md");
    let task = app.update(Message::OpenHome);
    assert_eq!(task, Task::Nothing);
    assert_eq!(app.order().len(), 2);
    match app.current_state() {
        State::Home(home) => assert_eq!(home.recent.get_inner(), &["/a.md".to_string()]),
        State::Editor(_) => panic!("a document has the focus"),
    }
}

#[test]
fn home_over_home_keeps_the_tab() {
    let mut app = fresh();
    let home = app.active();
    assert_eq!(app.update(Message::OpenHome), Task::Nothing);
    assert_eq!(app.order(), &[home]);
    assert!(matches!(app.current_state(), State::Home(_)));
}

#[test]
fn open_over_a_home_tab_in_the_middle_keeps_its_place() {
    let mut app = fresh();
    open(&mut app, "/a.md");
    let first = app.active();
    app.update(Message::OpenHome);
    let home = app.active();
    app.update(Message::SwitchToTab(first));
    open(&mut app, "/c.md");
    let order = app.order().to_vec();
    assert_eq!(order.len(), 3);
    assert_eq!(order[1], home);
    app.update(Message::SwitchToTab(home));
    assert_eq!(open(&mut app, "/b.md"), Task::Load(Some("/b.md".to_string())));
    assert_eq!(app.order(), &order[..]);
    assert_eq!(app.active(), home);
    assert_eq!(document(&app).path(), Some("/b.md".to_string()));
}

#[test]
fn tokens_are_not_used_twice() {
    let (mut app, order) = three();
    app.update(Message::KillTab(order[2]));
    open(&mut app, "/d.md");
    let id = app.active();
    assert!(!order.contains(&id));
    assert_eq!(id, TabId(3));
    assert_eq!(order, vec![TabId(0), TabId(1), TabId(2)]);
}

#[test]
fn switch_gives_the_focus() {
    let (mut app, order) = three();
    assert_eq!(app.active(), order[2]);
    assert_eq!(app.update(Message::SwitchToTab(order[0])), Task::Nothing);
    assert_eq!(app.active(), order[0]);
    assert_eq!(app.order(), &order[..]);
}

#[test]
fn switch_to_what_is_no_tab_does_nothing() {
    let (mut app, order) = three();
    assert_eq!(app.update(Message::SwitchToTab(TabId(77))), Task::Nothing);
    assert_eq!(app.active(), order[2]);
    app.activate(TabId(78));
    assert_eq!(app.active(), order[2]);
}

#[test]
fn closing_the_first_tab_with_the_focus_gives_it_to_the_second() {
    let (mut app, order) = three();
    app.update(Message::SwitchToTab(order[0]));
    assert_eq!(app.update(Message::KillTab(order[0])), Task::Close(order[0]));
    assert_eq!(app.active(), order[1]);
    assert_eq!(app.order(), &order[1..]);
    assert_eq!(app.state(order[0]), None);
}

#[test]
fn closing_another_tab_with_the_focus_gives_it_to_the_first() {
    let (mut app, order) = three();
    assert_eq!(app.update(Message::KillTab(order[2])), Task::Close(order[2]));
    assert_eq!(app.active(), order[0]);
    assert_eq!(app.order(), &order[..2]);

    let (mut app, order) = three();
    app.update(Message::SwitchToTab(order[1]));
    app.update(Message::KillTab(order[1]));
    assert_eq!(app.active(), order[0]);
    assert_eq!(app.order(), &[order[0], order[2]]);
}

#[test]
fn closing_a_tab_without_the_focus_leaves_the_focus() {
    let (mut app, order) = three();
    app.update(Message::SwitchToTab(order[1]));
    assert!(app.remove(order[2]));
    assert_eq!(app.active(), order[1]);
    assert!(app.remove(order[0]));
    assert_eq!(app.active(), order[1]);
    assert_eq!(app.order(), &[order[1]]);
}

#[test]
fn the_last_tab_is_not_closed() {
    let mut app = fresh();
    let only = app.active();
    assert_eq!(app.update(Message::KillTab(only)), Task::Nothing);
    assert_eq!(app.order(), &[only]);
    assert_eq!(app.active(), only);
    assert!(!app.remove(only));
    assert!(matches!(app.current_state(), State::Home(_)));
}

#[test]
fn closing_what_is_no_tab_does_nothing() {
    let (mut app, order) = three();
    assert_eq!(app.update(Message::KillTab(TabId(99))), Task::Nothing);
    assert_eq!(app.order(), &order[..]);
    assert_eq!(app.active(), order[2]);
}

#[test]
fn add_tab_appends_and_gives_the_focus() {
    let mut app = fresh();
    let home = app.active();
    let id = app.add_tab(State::Editor(Editor::new(None)));
    assert_eq!(app.order(), &[home, id]);
    assert_eq!(app.active(), id);
    assert_eq!(app.state(id), Some(&State::Editor(Editor::new(None))));
}

#[test]
fn there_is_always_a_tab_with_the_focus() {
    let mut app = fresh();
    let mut step: u64 = 0;
    while step < 200 {
        let pick = (step * 7 + 3) % 11;
        let order = app.order().to_vec();
        match pick % 4 {
            0 => {
                app.add_tab(State::Editor(Editor::new(None)));
            }
            1 => {
                app.remove(order[(pick as usize) % order.len()]);
            }
            2 => {
                app.remove(app.active());
            }
            _ => {
                app.update(Message::KillTab(TabId(step % 5)));
            }
        }
        assert!(!app.order().is_empty());
        assert!(app.order().contains(&app.active()));
        assert!(app.state(app.active()).is_some());
        step += 1;
    }
}

#[test]
fn save_without_a_path_asks_where_to_save() {
    let mut app = fresh();
    app.update(Message::OpenEditor(None));
    app.update(Message::Edit(Action::Edit(Edit::Insert('x'))));
    assert!(!document(&app).can_close());
    let task = app.update(Message::Save);
    assert_eq!(task, Task::Done(Message::SaveAsFilePicker));
    assert!(!document(&app).can_close());
    assert_eq!(document(&app).path(), None);
}

#[test]
fn save_with_a_path_writes_and_is_clean_once_written() {
    let mut app = fresh();
    open(&mut app, "/tmp/a.md");
    app.update(Message::Edit(Action::Edit(Edit::Enter)));
    assert_eq!(app.update(Message::Save), Task::Write("/tmp/a.md".to_string()));
    assert!(!document(&app).can_close());
    assert_eq!(app.update(Message::Saved(app.active())), Task::Nothing);
    assert!(document(&app).can_close());
}

#[test]
fn a_failed_write_leaves_the_document_dirty() {
    let mut app = fresh();
    open(&mut app, "/tmp/a.md");
    app.update(Message::Edit(Action::Edit(Edit::Delete)));
    assert_eq!(app.update(Message::Save), Task::Write("/tmp/a.md".to_string()));
    assert_eq!(app.update(Message::Save), Task::Write("/tmp/a.md".to_string()));
    assert!(!document(&app).can_close());
}

#[test]
fn save_as_sets_the_path_and_saves() {
    let mut app = fresh();
    app.update(Message::OpenEditor(None));
    let task = app.update(Message::SaveAs("/tmp/new.md".to_string()));
    assert_eq!(task, Task::Done(Message::Save));
    assert_eq!(document(&app).path(), Some("/tmp/new.md".to_string()));
    assert_eq!(app.update(Message::Save), Task::Write("/tmp/new.md".to_string()));
}

#[test]
fn saved_goes_to_the_tab_it_names() {
    let (mut app, order) = three();
    app.update(Message::SwitchToTab(order[0]));
    app.update(Message::Edit(Action::Edit(Edit::Backspace)));
    app.update(Message::SwitchToTab(order[1]));
    app.update(Message::Edit(Action::Edit(Edit::Backspace)));
    app.update(Message::Saved(order[0]));
    assert!(document(&app).can_close() == false);
    app.update(Message::SwitchToTab(order[0]));
    assert!(document(&app).can_close());
}

#[test]
fn parsed_for_a_live_document_is_taken() {
    let (mut app, order) = three();
    assert_eq!(app.update(Message::Parsed(order[0])), Task::Render(order[0]));
    assert_eq!(app.update(Message::Parsed(order[2])), Task::Render(order[2]));
}

#[test]
fn parsed_for_a_closed_tab_is_dropped() {
    let (mut app, order) = three();
    app.update(Message::KillTab(order[1]));
    assert_eq!(app.update(Message::Parsed(order[1])), Task::Nothing);
    assert_eq!(app.update(Message::Saved(order[1])), Task::Nothing);
    assert_eq!(app.order(), &[order[0], order[2]]);
}

#[test]
fn parsed_for_the_home_screen_is_dropped() {
    let mut app = fresh();
    assert_eq!(app.update(Message::Parsed(app.active())), Task::Nothing);
}

#[test]
fn the_home_screen_takes_no_edits() {
    let mut app = fresh();
    assert_eq!(app.update(Message::Edit(Action::Edit(Edit::Enter))), Task::Nothing);
    assert_eq!(app.update(Message::Save), Task::Nothing);
    assert_eq!(app.update(Message::Url("x".to_string())), Task::Nothing);
    assert!(matches!(app.current_state(), State::Home(_)));
}

#[test]
fn picker_comes_up_once() {
    let mut app = fresh();
    assert_eq!(app.update(Message::OpenFilePicker), Task::Picker(DialogKind::OpenFile));
    assert_eq!(app.dialog().kind(), Some(DialogKind::OpenFile));
    assert_eq!(app.update(Message::OpenFilePicker), Task::Nothing);
    assert_eq!(app.update(Message::SaveAsFilePicker), Task::Nothing);
    assert_eq!(app.dialog().kind(), Some(DialogKind::OpenFile));
    assert_eq!(app.update(Message::Dialog), Task::Forward);
    assert_eq!(app.dialog().kind(), Some(DialogKind::OpenFile));
}

#[test]
fn any_other_message_takes_the_picker_down() {
    let others = || {
        vec![
            Message::Save,
            Message::Edit(Action::Other),
            Message::Parsed(TabId(0)),
            Message::Saved(TabId(0)),
            Message::Url("u".to_string()),
            Message::KeyPress(Key::Unidentified, Modifiers::none()),
            Message::SaveAs("p".to_string()),
            Message::OpenEditor(None),
            Message::OpenHome,
            Message::SwitchToTab(TabId(0)),
            Message::KillTab(TabId(0)),
            Message::OpenFileResult(DialogResult::Cancel),
            Message::SaveAsFileResult(DialogResult::Cancel),
            Message::OpenFileResult(DialogResult::Open(vec![])),
            Message::SaveAsFileResult(DialogResult::Open(vec!["p".to_string()])),
        ]
    };
    for message in others() {
        let mut app = fresh();
        app.update(Message::OpenFilePicker);
        app.update(message);
        assert_eq!(app.dialog().kind(), None);
    }
}

#[test]
fn picking_a_file_opens_it() {
    let mut app = fresh();
    app.update(Message::OpenFilePicker);
    let picked = DialogResult::Open(vec!["/x/one.md".to_string(), "/x/two.md".to_string()]);
    let task = app.update(Message::OpenFileResult(picked));
    assert_eq!(task, Task::Done(Message::OpenEditor(Some("/x/one.md".to_string()))));
    assert_eq!(app.dialog().kind(), None);
    assert!(matches!(app.current_state(), State::Home(_)));
    let task = app.update(Message::OpenEditor(Some("/x/one.md".to_string())));
    assert_eq!(task, Task::Load(Some("/x/one.md".to_string())));
    assert_eq!(document(&app).path(), Some("/x/one.md".to_string()));
}

#[test]
fn picking_where_to_save_saves_there() {
    let mut app = fresh();
    app.update(Message::OpenEditor(None));
    assert_eq!(
        app.update(Message::SaveAsFilePicker),
        Task::Picker(DialogKind::SaveFile { filename: "unnamed.md".to_string() })
    );
    let picked = DialogResult::Open(vec!["/x/new.md".to_string()]);
    let task = app.update(Message::SaveAsFileResult(picked));
    assert_eq!(task, Task::Done(Message::SaveAs("/x/new.md".to_string())));
    assert_eq!(document(&app).path(), None);
}

#[test]
fn key_press_runs_the_first_binding_that_matches() {
    let flags = Flags {
        general_keybinds: vec![
            binding(MenuActions::OpenFile, "o", &["Ctrl"]),
            binding(MenuActions::Save, "s", &["Ctrl"]),
            binding(MenuActions::GoHome, "s", &["Ctrl"]),
            binding(MenuActions::NewFile, "s", &["Ctrl", "Shift"]),
        ],
        ..Flags::default()
    };
    let mut app = AstroMark::init(flags, Recent::default());
    let s = || Key::Character("s".to_string());
    assert_eq!(app.update(Message::KeyPress(s(), ctrl())), Task::Done(Message::Save));
    let both = Modifiers { shift: true, ..ctrl() };
    assert_eq!(app.update(Message::KeyPress(s(), both)), Task::Done(Message::OpenEditor(None)));
    assert_eq!(app.update(Message::KeyPress(s(), Modifiers::none())), Task::Nothing);
    let capital = || Key::Character("S".to_string());
    assert_eq!(app.update(Message::KeyPress(capital(), both)), Task::Done(Message::OpenEditor(None)));
    assert_eq!(app.update(Message::KeyPress(capital(), ctrl())), Task::Done(Message::Save));
    assert_eq!(
        app.update(Message::KeyPress(Key::Character("o".to_string()), ctrl())),
        Task::Done(Message::OpenFilePicker)
    );
    assert_eq!(app.keybinds(&Message::KeyPress(s(), ctrl())), Some(Task::Done(Message::Save)));
    assert_eq!(app.keybinds(&Message::Save), None);
    assert_eq!(app.flags().general_keybinds().len(), 4);
}

#[test]
fn resolve_press_is_first_match() {
    let bind = |key: &str, modifiers: Vec<Modifier>| MenuBind {
        modifiers,
        key: Key::Character(key.to_string()),
    };
    let table = vec![
        (bind("a", vec![Modifier::Alt]), MenuActions::Save),
        (bind("a", vec![]), MenuActions::SaveAs),
        (bind("a", vec![]), MenuActions::GoHome),
    ];
    let a = Key::Character("a".to_string());
    assert_eq!(resolve_press(&table, Modifiers::none(), &a), Some(MenuActions::SaveAs));
    let alt = Modifiers { alt: true, ..Modifiers::none() };
    assert_eq!(resolve_press(&table, alt, &a), Some(MenuActions::Save));
    assert_eq!(resolve_press(&table, ctrl(), &a), None);
    assert_eq!(resolve_press(&table, Modifiers::none(), &Key::Named(Named::Tab)), None);
    assert_eq!(resolve_press(&vec![], Modifiers::none(), &a), None);
    let mut swapped = table;
    swapped.swap(1, 2);
    assert_eq!(resolve_press(&swapped, Modifiers::none(), &a), Some(MenuActions::GoHome));
}

#[test]
fn update_tabs_passes_over_other_messages() {
    let (mut app, order) = three();
    assert_eq!(app.update_tabs(&Message::Save), Task::Nothing);
    assert_eq!(app.update_tabs(&Message::Dialog), Task::Nothing);
    assert_eq!(app.order(), &order[..]);
    assert_eq!(app.update_tabs(&Message::KillTab(order[0])), Task::Close(order[0]));
}

#[test]
fn menu_offers_saving_for_a_document_only() {
    let mut app = fresh();
    assert_eq!(
        app.menu_bar(),
        vec![
            Item::Button(MenuActions::OpenFile),
            Item::Button(MenuActions::NewFile),
            Item::Divider,
            Item::Button(MenuActions::GoHome),
        ]
    );
    app.update(Message::OpenEditor(None));
    assert_eq!(
        app.menu_bar(),
        vec![
            Item::Button(MenuActions::Save),
            Item::Button(MenuActions::SaveAs),
            Item::Divider,
            Item::Button(MenuActions::OpenFile),
            Item::Button(MenuActions::NewFile),
            Item::Divider,
            Item::Button(MenuActions::GoHome),
        ]
    );
}

#[test]
fn recents_follow_what_is_opened() {
    let flags = Flags { max_recents: 2, ..Flags::default() };
    let mut app = AstroMark::init(flags, Recent::default());
    open(&mut app, "a");
    open(&mut app, "b");
    open(&mut app, "c");
    assert_eq!(recents(&app), vec!["b", "c"]);
    open(&mut app, "b");
    assert_eq!(recents(&app), vec!["c", "b"]);
}
