use vstd::prelude::*;
use vstd::string::*;
use crate::session::message::MenuActions;
use crate::utils::cfg::script::keybinds::{
    Keybind,
    MenuBind,
    MenuBindView,
    Value,
    ValueView,
    bind_of,
    keybind_of,
    lemma_bind_round_trip,
};
use crate::utils::ok_or_default;

verus! {

/// A field of a map of the script: its name and its value.
#[derive(Debug, PartialEq, Eq)]
pub struct Field {
    pub name: String,
    pub value: Value,
}

/// A [`Field`] as contracts see it.
pub struct FieldView {
    pub name: Seq<char>,
    pub value: ValueView,
}

impl View for Field {
    type V = FieldView;

    open spec fn view(&self) -> FieldView {
        FieldView { name: self.name@, value: self.value@ }
    }
}

/// The fields of a list as contracts see them.
pub open spec fn fields(list: Seq<Field>) -> Seq<FieldView> {
    list.map_values(|field: Field| field@)
}

/// An item of a list of the script: a map, or anything else.
#[derive(Debug, PartialEq, Eq)]
pub enum Record {
    Fields(Vec<Field>),
    Other,
}

/// A [`Record`] as contracts see it.
pub enum RecordView {
    Fields(Seq<FieldView>),
    Other,
}

impl View for Record {
    type V = RecordView;

    open spec fn view(&self) -> RecordView {
        match self {
            Record::Fields(list) => RecordView::Fields(fields(list@)),
            Record::Other => RecordView::Other,
        }
    }
}

/// The records of a list as contracts see them.
pub open spec fn records(list: Seq<Record>) -> Seq<RecordView> {
    list.map_values(|record: Record| record@)
}

/// The value of the first field of that name, if there is such a field.
pub open spec fn field_named(list: Seq<FieldView>, name: Seq<char>) -> Option<ValueView>
    decreases list.len(),
{
    if list.len() == 0 {
        None
    } else if list[0].name == name {
        Some(list[0].value)
    } else {
        field_named(list.drop_first(), name)
    }
}

/// The name of the field that holds the entry of the menu.
pub const ACTION: &'static str = "action";

/// The name of the field that holds the key with its modifiers.
pub const KEYBIND: &'static str = "keybind";

/// The key binding that a record describes, if it describes one: it is a
/// map, its field `action` holds an entry of the menu, and its field
/// `keybind` holds a key with its modifiers.
pub open spec fn binding_of(record: RecordView) -> Option<(MenuBindView, MenuActions)> {
    match record {
        RecordView::Fields(list) => match (field_named(list, ACTION@), field_named(list, KEYBIND@)) {
            (Some(ValueView::Action(action)), Some(ValueView::Keybind(bind))) => Some(
                (bind_of(bind), action),
            ),
            _ => None,
        },
        RecordView::Other => None,
    }
}

/// The key bindings that a list of records describes, in the order of the
/// list. A record that describes none is passed over.
pub open spec fn bindings_of(list: Seq<RecordView>) -> Seq<(MenuBindView, MenuActions)>
    decreases list.len(),
{
    if list.len() == 0 {
        Seq::empty()
    } else {
        let front = bindings_of(list.drop_last());
        match binding_of(list.last()) {
            Some(binding) => front.push(binding),
            None => front,
        }
    }
}

/// The key bindings of a list as contracts see them.
pub open spec fn binds(list: Seq<(MenuBind, MenuActions)>) -> Seq<(MenuBindView, MenuActions)> {
    list.map_values(|binding: (MenuBind, MenuActions)| (binding.0@, binding.1))
}

/// The record that describes a key binding.
pub open spec fn record_of(binding: (MenuBindView, MenuActions)) -> RecordView {
    RecordView::Fields(
        seq![
            FieldView { name: ACTION@, value: ValueView::Action(binding.1) },
            FieldView { name: KEYBIND@, value: ValueView::Keybind(keybind_of(binding.0)) },
        ],
    )
}

/// The records that describe the key bindings of a list.
pub open spec fn records_of(list: Seq<(MenuBindView, MenuActions)>) -> Seq<RecordView> {
    list.map_values(|binding: (MenuBindView, MenuActions)| record_of(binding))
}

/// Whether the key of each binding is a character. Bindings that records
/// describe are of this kind.
pub open spec fn on_characters(list: Seq<(MenuBindView, MenuActions)>) -> bool {
    forall|i: int| 0 <= i < list.len() ==> (#[trigger] list[i]).0.key is Character
}

/// The themes that the editor can highlight markdown in.
#[derive(Clone, Copy, Debug, PartialEq, Eq, Structural)]
pub enum Theme {
    SolarizedDark,
    Base16Mocha,
    Base16Ocean,
    Base16Eighties,
    InspiredGitHub,
}

/// The settings that the configuration script hands over.
#[derive(Debug, PartialEq, Eq)]
pub struct Flags {
    /// How many spaces a tab takes.
    /// Only used if `expand_tabs` is enabled.
    pub tab_len: i64,
    /// How many recently accessed files should be shown on the home screen.
    pub max_recents: i64,
    /// Converts tabs into spaces.
    /// Strongly discouraged.
    pub expand_tabs: bool,
    /// The highlighting theme used by the editor.
    pub highlight: String,
    /// Keybinds used throughout the app.
    pub general_keybinds: Vec<Record>,
    /// The name of the function of the script that is run when the app
    /// starts.
    pub callback: String,
}

/// A signed setting read as a size: itself where a `usize` can hold it,
/// zero otherwise.
pub open spec fn size_of_setting(value: i64) -> usize {
    if 0 <= value <= usize::MAX {
        value as usize
    } else {
        0
    }
}

/// `text` in lower case, as `str::to_lowercase` gives it.
pub uninterp spec fn lowercase(text: Seq<char>) -> Seq<char>;

/// `text` without the white space at its ends, as `str::trim` gives it.
pub uninterp spec fn trimmed(text: Seq<char>) -> Seq<char>;

/// `text` in lower case.
///
/// This is `str::to_lowercase`. The contract gives its result a name and
/// claims nothing else of it.
#[verifier::external_body]
fn to_lowercase(text: &str) -> (lower: String)
    ensures
        lower@ == lowercase(text@),
{
    text.to_lowercase()
}

/// `text` without the white space at its ends.
///
/// This is `str::trim`. The contract gives its result a name and claims
/// nothing else of it.
#[verifier::external_body]
fn trim(text: &str) -> (inner: String)
    ensures
        inner@ == trimmed(text@),
{
    text.trim().to_string()
}

/// The theme of that name. A name that no theme has stands for
/// [`Theme::Base16Eighties`].
pub open spec fn theme_named(name: Seq<char>) -> Theme {
    if name == "base16mocha"@ {
        Theme::Base16Mocha
    } else if name == "base16ocean"@ {
        Theme::Base16Ocean
    } else if name == "inspiredgithub"@ {
        Theme::InspiredGitHub
    } else if name == "solarizeddark"@ {
        Theme::SolarizedDark
    } else {
        Theme::Base16Eighties
    }
}

impl Theme {
    /// The theme of that name. A name that no theme has stands for
    /// [`Theme::Base16Eighties`].
    pub fn named(name: &String) -> (theme: Theme)
        ensures
            theme == theme_named(name@),
    {
        if *name == String::from_str("base16mocha") {
            Theme::Base16Mocha
        } else if *name == String::from_str("base16ocean") {
            Theme::Base16Ocean
        } else if *name == String::from_str("inspiredgithub") {
            Theme::InspiredGitHub
        } else if *name == String::from_str("solarizeddark") {
            Theme::SolarizedDark
        } else {
            Theme::Base16Eighties
        }
    }
}

impl Flags {
    /// How many spaces a tab takes.
    pub open spec fn spec_tab_len(&self) -> usize {
        size_of_setting(self.tab_len)
    }

    /// How many files the list of the files opened last may hold.
    pub open spec fn spec_max_recents(&self) -> usize {
        size_of_setting(self.max_recents)
    }

    /// The key bindings that the settings describe, in the order of the
    /// script.
    pub open spec fn bindings(&self) -> Seq<(MenuBindView, MenuActions)> {
        bindings_of(records(self.general_keybinds@))
    }

    /// The theme that the settings name. Case and white space around the
    /// name do not count.
    pub fn highlight(&self) -> (theme: Theme)
        ensures
            theme == theme_named(trimmed(lowercase(self.highlight@))),
    {
        let lower = to_lowercase(self.highlight.as_str());
        let name = trim(lower.as_str());
        Theme::named(&name)
    }

    /// How many spaces a tab takes. A width that is no size counts as zero.
    #[verifier::when_used_as_spec(spec_tab_len)]
    pub fn tab_len(&self) -> (len: usize)
        ensures
            len == self.spec_tab_len(),
    {
        ok_or_default(usize::try_from(self.tab_len))
    }

    /// How many files the list of the files opened last may hold. A number
    /// that is no size counts as zero.
    #[verifier::when_used_as_spec(spec_max_recents)]
    pub fn max_recents(&self) -> (cap: usize)
        ensures
            cap == self.spec_max_recents(),
    {
        ok_or_default(usize::try_from(self.max_recents))
    }

    /// The key bindings that the settings describe, in the order of the
    /// script. Each record stands or falls alone: one that is no map, or
    /// lacks a field, or holds something else in it, is passed over.
    pub fn general_keybinds(&self) -> (keybinds: Vec<(MenuBind, MenuActions)>)
        ensures
            binds(keybinds@) == self.bindings(),
    {
        let ghost list = records(self.general_keybinds@);
        let mut keybinds: Vec<(MenuBind, MenuActions)> = Vec::new();
        let mut i: usize = 0;
        while i < self.general_keybinds.len()
            invariant
                i <= self.general_keybinds.len(),
                list == records(self.general_keybinds@),
                binds(keybinds@) == bindings_of(list.take(i as int)),
            decreases self.general_keybinds.len() - i,
        {
            proof {
                assert(list.take(i as int + 1).drop_last() == list.take(i as int));
            }
            match binding(&self.general_keybinds[i]) {
                Some(found) => {
                    proof {
                        assert(binds(keybinds@.push(found)) == binds(keybinds@).push(
                            (found.0@, found.1),
                        ));
                    }
                    keybinds.push(found);
                },
                None => {},
            }
            i += 1;
        }
        proof {
            assert(list.take(i as int) == list);
        }
        keybinds
    }

    /// The records that describe `keybinds`, as the script would write
    /// them; `None` where the key of a binding is no character, which no
    /// script can write.
    pub fn keybind_records(keybinds: &Vec<(MenuBind, MenuActions)>) -> (list: Option<Vec<Record>>)
        ensures
            match list {
                Some(list) => on_characters(binds(keybinds@)) && records(list@) == records_of(
                    binds(keybinds@),
                ),
                None => !on_characters(binds(keybinds@)),
            },
    {
        let mut list: Vec<Record> = Vec::new();
        let ghost table = binds(keybinds@);
        let mut i: usize = 0;
        while i < keybinds.len()
            invariant
                i <= keybinds.len(),
                table == binds(keybinds@),
                list.len() == i,
                forall|j: int| 0 <= j < i ==> (#[trigger] table[j]).0.key is Character,
                forall|j: int| 0 <= j < i ==> list[j]@ == record_of(table[j]),
            decreases keybinds.len() - i,
        {
            match keybinds[i].0.keybind() {
                Some(bind) => {
                    let mut map: Vec<Field> = Vec::new();
                    map.push(
                        Field { name: String::from_str(ACTION), value: Value::Action(keybinds[i].1) },
                    );
                    map.push(Field { name: String::from_str(KEYBIND), value: Value::Keybind(bind) });
                    proof {
                        assert(fields(map@) =~= seq![
                            FieldView { name: ACTION@, value: ValueView::Action(table[i as int].1) },
                            FieldView {
                                name: KEYBIND@,
                                value: ValueView::Keybind(keybind_of(table[i as int].0)),
                            },
                        ]);
                    }
                    list.push(Record::Fields(map));
                },
                None => {
                    proof {
                        assert(!(table[i as int].0.key is Character));
                    }
                    return None;
                },
            }
            i += 1;
        }
        proof {
            assert(records(list@) =~= records_of(table));
        }
        Some(list)
    }
}

/// The value of the first field of that name.
fn field<'a>(list: &'a Vec<Field>, name: &str) -> (value: Option<&'a Value>)
    ensures
        match value {
            Some(value) => field_named(fields(list@), name@) == Some(value@),
            None => field_named(fields(list@), name@) is None,
        },
{
    let wanted = String::from_str(name);
    let ghost all = fields(list@);
    let mut i: usize = 0;
    proof {
        assert(all.skip(0) == all);
    }
    while i < list.len()
        invariant
            i <= list.len(),
            all == fields(list@),
            wanted@ == name@,
            field_named(all, name@) == field_named(all.skip(i as int), name@),
        decreases list.len() - i,
    {
        proof {
            assert(all.skip(i as int).drop_first() == all.skip(i as int + 1));
            assert(all.skip(i as int)[0] == list[i as int]@);
        }
        if list[i].name == wanted {
            return Some(&list[i].value);
        }
        i += 1;
    }
    None
}

/// The key binding that a record describes, if it describes one.
fn binding(record: &Record) -> (found: Option<(MenuBind, MenuActions)>)
    ensures
        match found {
            Some(found) => binding_of(record@) == Some((found.0@, found.1)),
            None => binding_of(record@) is None,
        },
{
    match record {
        Record::Fields(list) => {
            let action = match field(list, ACTION) {
                Some(Value::Action(action)) => *action,
                _ => {
                    return None;
                },
            };
            let bind = match field(list, KEYBIND) {
                Some(Value::Keybind(bind)) => bind.clone(),
                _ => {
                    return None;
                },
            };
            Some((MenuBind::from(bind), action))
        },
        Record::Other => None,
    }
}

impl Default for Flags {
    fn default() -> (flags: Self)
        ensures
            flags.tab_len == 4,
            !flags.expand_tabs,
            flags.max_recents == 8,
            flags.highlight@ == "base16eighties"@,
            flags.callback@ == "callback"@,
            flags.general_keybinds@.len() == 0,
    {
        Self {
            tab_len: 4,
            expand_tabs: false,
            max_recents: 8,
            highlight: String::from_str("base16eighties"),
            callback: String::from_str("callback"),
            general_keybinds: Vec::new(),
        }
    }
}

/// The bindings that records describe are bound to characters.
pub proof fn lemma_bindings_on_characters(list: Seq<RecordView>)
    ensures
        on_characters(bindings_of(list)),
    decreases list.len(),
{
    if list.len() > 0 {
        lemma_bindings_on_characters(list.drop_last());
    }
}

/// Written down as records and read again, a table of key bindings is what
/// it was: the same bindings in the same order, and so the same entry of the
/// menu for every key press.
pub proof fn lemma_records_round_trip(table: Seq<(MenuBindView, MenuActions)>)
    requires
        on_characters(table),
    ensures
        bindings_of(records_of(table)) == table,
    decreases table.len(),
{
    if table.len() > 0 {
        let front = table.drop_last();
        assert(on_characters(front)) by {
            assert forall|i: int| 0 <= i < front.len() implies (#[trigger] front[i]).0.key
                is Character by {
                assert(front[i] == table[i]);
            }
        }
        lemma_records_round_trip(front);
        assert(records_of(table).drop_last() == records_of(front));
        let last = table.last();
        assert(last == table[table.len() - 1]);
        lemma_record_round_trip(last);
        assert(front.push(last) == table);
    } else {
        assert(bindings_of(records_of(table)) == table);
    }
}

/// The record that describes a binding describes that binding.
pub proof fn lemma_record_round_trip(binding: (MenuBindView, MenuActions))
    requires
        binding.0.key is Character,
    ensures
        binding_of(record_of(binding)) == Some(binding),
{
    reveal_strlit("action");
    reveal_strlit("keybind");
    assert(ACTION@.len() == 6 && KEYBIND@.len() == 7);
    let list = record_of(binding)->Fields_0;
    assert(field_named(list, ACTION@) == Some(list[0].value));
    assert(list.drop_first()[0] == list[1]);
    assert(field_named(list.drop_first(), KEYBIND@) == Some(list[1].value));
    assert(field_named(list, KEYBIND@) == Some(list[1].value));
    lemma_bind_round_trip(binding.0);
}

} // verus!
