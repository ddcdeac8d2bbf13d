use astromark::session::keyboard;
use astromark::session::message::MenuActions;
use astromark::utils::cfg::flags::{Field, Flags, Record, Theme, ACTION, KEYBIND};
use astromark::utils::cfg::script::color::{i64_to_color, Rgb};
use astromark::utils::cfg::script::keybinds::{Key, Keybind, MenuBind, Modifier, Value};
use astromark::utils::cfg::script::{ScriptCfg, DEFAULT_CFG};
use astromark::utils::cfg::DefaultBytes;
use astromark::utils::ok_or_default;

fn key(text: &str) -> Key {
    Key::new(text.to_string())
}

fn keybind(text: &str, modifiers: &[&str]) -> Keybind {
    Keybind::new(key(text), modifiers.iter().map(|name| Value::Key(key(name))).collect())
}

fn record(action: Value, bind: Value) -> Record {
    Record::Fields(vec![
        Field { name: "action".to_string(), value: action },
        Field { name: "keybind".to_string(), value: bind },
    ])
}

fn bind(text: &str, modifiers: Vec<Modifier>) -> MenuBind {
    MenuBind { modifiers, key: keyboard::Key::Character(text.to_string()) }
}

#[test]
fn default_flags() {
    let flags = Flags::default();
    assert_eq!(flags.tab_len, 4);
    assert_eq!(flags.max_recents, 8);
    assert!(!flags.expand_tabs);
    assert_eq!(flags.highlight, "base16eighties");
    assert_eq!(flags.callback, "callback");
    assert!(flags.general_keybinds.is_empty());
    assert_eq!(flags.tab_len(), 4);
    assert_eq!(flags.max_recents(), 8);
    assert_eq!(flags.highlight(), Theme::Base16Eighties);
}

#[test]
fn negative_sizes_count_as_zero() {
    let flags = Flags { tab_len: -1, max_recents: i64::MIN, ..Flags::default() };
    assert_eq!(flags.tab_len(), 0);
    assert_eq!(flags.max_recents(), 0);
}

#[test]
fn sizes_are_taken_as_they_are() {
    let flags = Flags { tab_len: 0, max_recents: 1_000_000, ..Flags::default() };
    assert_eq!(flags.tab_len(), 0);
    assert_eq!(flags.max_recents(), 1_000_000);
}

#[test]
fn ok_or_default_takes_the_value_or_the_default() {
    assert_eq!(ok_or_default::<u8, ()>(Ok(7)), 7);
    assert_eq!(ok_or_default::<u8, ()>(Err(())), 0);
    assert_eq!(ok_or_default::<String, u8>(Err(3)), String::new());
    assert_eq!(ok_or_default(u8::try_from(256i64)), 0);
}

#[test]
fn highlight_knows_each_theme() {
    let named = |name: &str| Flags { highlight: name.to_string(), ..Flags::default() }.highlight();
    assert_eq!(named("base16eighties"), Theme::Base16Eighties);
    assert_eq!(named("base16mocha"), Theme::Base16Mocha);
    assert_eq!(named("base16ocean"), Theme::Base16Ocean);
    assert_eq!(named("inspiredgithub"), Theme::InspiredGitHub);
    assert_eq!(named("solarizeddark"), Theme::SolarizedDark);
}

#[test]
fn highlight_ignores_case() {
    let flags = Flags { highlight: "SolarizedDark".to_string(), ..Flags::default() };
    assert_eq!(flags.highlight(), Theme::SolarizedDark);
}

#[test]
fn highlight_ignores_space_around_the_name() {
    let flags = Flags { highlight: "  Base16Mocha \n".to_string(), ..Flags::default() };
    assert_eq!(flags.highlight(), Theme::Base16Mocha);
}

#[test]
fn highlight_of_unknown_name_is_the_default() {
    let flags = Flags { highlight: "solarized dark".to_string(), ..Flags::default() };
    assert_eq!(flags.highlight(), Theme::Base16Eighties);
    let flags = Flags { highlight: String::new(), ..Flags::default() };
    assert_eq!(flags.highlight(), Theme::Base16Eighties);
}

#[test]
fn theme_named_is_exact() {
    assert_eq!(Theme::named(&"base16ocean".to_string()), Theme::Base16Ocean);
    assert_eq!(Theme::named(&"Base16Ocean".to_string()), Theme::Base16Eighties);
    assert_eq!(Theme::named(&" base16ocean".to_string()), Theme::Base16Eighties);
}

#[test]
fn keybind_new_passes_over_what_is_no_key() {
    let made = Keybind::new(
        key("s"),
        vec![
            Value::Key(key("Ctrl")),
            Value::Other,
            Value::Action(MenuActions::Save),
            Value::Key(key("Shift")),
        ],
    );
    assert_eq!(made.key, key("s"));
    assert_eq!(made.modifiers, vec![key("Ctrl"), key("Shift")]);
}

#[test]
fn modifier_names() {
    assert_eq!(Modifier::named(&key("Super")), Some(Modifier::Super));
    assert_eq!(Modifier::named(&key("Ctrl")), Some(Modifier::Ctrl));
    assert_eq!(Modifier::named(&key("Alt")), Some(Modifier::Alt));
    assert_eq!(Modifier::named(&key("Shift")), Some(Modifier::Shift));
    assert_eq!(Modifier::named(&key("ctrl")), None);
    assert_eq!(Modifier::named(&key("")), None);
    for modifier in [Modifier::Super, Modifier::Ctrl, Modifier::Alt, Modifier::Shift] {
        assert_eq!(Modifier::named(&modifier.name()), Some(modifier));
    }
    assert_eq!(Modifier::Super.name(), key("Super"));
}

#[test]
fn menu_bind_from_keybind_passes_over_unknown_modifiers() {
    let made = MenuBind::from(keybind("o", &["Ctrl", "Hyper", "Alt"]));
    assert_eq!(made, bind("o", vec![Modifier::Ctrl, Modifier::Alt]));
}

#[test]
fn menu_bind_writes_itself_as_a_keybind() {
    let menu = bind("o", vec![Modifier::Shift, Modifier::Super]);
    let written = menu.keybind().unwrap();
    assert_eq!(written, keybind("o", &["Shift", "Super"]));
    assert_eq!(MenuBind::from(written), menu);
    let named = MenuBind { modifiers: vec![], key: keyboard::Key::Named(keyboard::Named::Tab) };
    assert_eq!(named.keybind(), None);
    let unknown = MenuBind { modifiers: vec![], key: keyboard::Key::Unidentified };
    assert_eq!(unknown.keybind(), None);
}

#[test]
fn general_keybinds_keeps_the_order_of_the_script() {
    let flags = Flags {
        general_keybinds: vec![
            record(Value::Action(MenuActions::Save), Value::Keybind(keybind("s", &["Ctrl"]))),
            record(Value::Action(MenuActions::OpenFile), Value::Keybind(keybind("o", &["Ctrl"]))),
            record(Value::Action(MenuActions::GoHome), Value::Keybind(keybind("s", &["Ctrl"]))),
        ],
        ..Flags::default()
    };
    assert_eq!(
        flags.general_keybinds(),
        vec![
            (bind("s", vec![Modifier::Ctrl]), MenuActions::Save),
            (bind("o", vec![Modifier::Ctrl]), MenuActions::OpenFile),
            (bind("s", vec![Modifier::Ctrl]), MenuActions::GoHome),
        ]
    );
}

#[test]
fn general_keybinds_passes_over_bad_records() {
    let good = || Value::Keybind(keybind("n", &[]));
    let flags = Flags {
        general_keybinds: vec![
            Record::Other,
            Record::Fields(vec![]),
            Record::Fields(vec![Field { name: "action".to_string(), value: Value::Action(MenuActions::Save) }]),
            Record::Fields(vec![Field { name: "keybind".to_string(), value: good() }]),
            record(Value::Other, good()),
            record(Value::Key(key("s")), good()),
            record(Value::Action(MenuActions::Save), Value::Key(key("s"))),
            record(Value::Action(MenuActions::Save), Value::Action(MenuActions::Save)),
            Record::Fields(vec![
                Field { name: "Action".to_string(), value: Value::Action(MenuActions::Save) },
                Field { name: "keybind".to_string(), value: good() },
            ]),
            record(Value::Action(MenuActions::NewFile), good()),
        ],
        ..Flags::default()
    };
    assert_eq!(flags.general_keybinds(), vec![(bind("n", vec![]), MenuActions::NewFile)]);
}

#[test]
fn general_keybinds_reads_the_first_field_of_a_name() {
    let flags = Flags {
        general_keybinds: vec![Record::Fields(vec![
            Field { name: "keybind".to_string(), value: Value::Keybind(keybind("a", &[])) },
            Field { name: "other".to_string(), value: Value::Other },
            Field { name: "action".to_string(), value: Value::Action(MenuActions::SaveAs) },
            Field { name: "action".to_string(), value: Value::Other },
        ])],
        ..Flags::default()
    };
    assert_eq!(flags.general_keybinds(), vec![(bind("a", vec![]), MenuActions::SaveAs)]);
}

#[test]
fn keybind_records_read_back_as_the_table() {
    let table = vec![
        (bind("s", vec![Modifier::Ctrl]), MenuActions::Save),
        (bind("S", vec![Modifier::Ctrl, Modifier::Shift]), MenuActions::SaveAs),
        (bind("h", vec![Modifier::Super, Modifier::Alt]), MenuActions::GoHome),
        (bind("s", vec![Modifier::Ctrl]), MenuActions::NewFile),
    ];
    let records = Flags::keybind_records(&table).unwrap();
    assert_eq!(records.len(), 4);
    assert_eq!(
        records[1],
        record(Value::Action(MenuActions::SaveAs), Value::Keybind(keybind("S", &["Ctrl", "Shift"])))
    );
    let flags = Flags { general_keybinds: records, ..Flags::default() };
    assert_eq!(flags.general_keybinds(), table);
}

#[test]
fn keybind_records_want_characters() {
    let table = vec![
        (bind("s", vec![]), MenuActions::Save),
        (
            MenuBind { modifiers: vec![], key: keyboard::Key::Named(keyboard::Named::Tab) },
            MenuActions::GoHome,
        ),
    ];
    assert_eq!(Flags::keybind_records(&table), None);
}

#[test]
fn keybind_records_of_the_empty_table() {
    let flags = Flags { general_keybinds: Flags::keybind_records(&vec![]).unwrap(), ..Flags::default() };
    assert!(flags.general_keybinds().is_empty());
}

#[test]
fn field_names() {
    assert_eq!(ACTION, "action");
    assert_eq!(KEYBIND, "keybind");
}

#[test]
fn colors_from_numbers() {
    assert_eq!(i64_to_color(0, 128, 255), Rgb { r: 0, g: 128, b: 255 });
    assert_eq!(i64_to_color(256, -1, 12), Rgb { r: 0, g: 0, b: 12 });
    assert_eq!(i64_to_color(i64::MAX, i64::MIN, 1), Rgb { r: 0, g: 0, b: 1 });
}

#[test]
fn default_script() {
    assert_eq!(DEFAULT_CFG, "let flags = flags();\n\nflags\n");
    assert_eq!(<ScriptCfg as DefaultBytes>::default_bytes(), DEFAULT_CFG.as_bytes().to_vec());
    let cfg = ScriptCfg { flags: Flags::default() };
    assert_eq!(cfg.flags, Flags::default());
}
