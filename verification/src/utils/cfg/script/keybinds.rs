use vstd::prelude::*;
use vstd::string::*;
use crate::session::keyboard;
use crate::session::keyboard::{KeyView, Modifiers, same_key};
use crate::session::message::MenuActions;

verus! {

/// A key as the script names it: `key("s")`, or `Modifier::Ctrl`.
#[derive(PartialEq, Eq, Debug)]
pub struct Key(pub String);

impl View for Key {
    type V = Seq<char>;

    open spec fn view(&self) -> Seq<char> {
        self.0@
    }
}

impl Clone for Key {
    fn clone(&self) -> (key: Self)
        ensures
            key@ == self@,
    {
        Key(self.0.clone())
    }
}

impl Key {
    pub fn new(str: String) -> (key: Self)
        ensures
            key@ == str@,
    {
        Self(str)
    }
}

/// The names of a list of keys.
pub open spec fn names(keys: Seq<Key>) -> Seq<Seq<char>> {
    keys.map_values(|key: Key| key@)
}

/// A key together with the modifier keys that go with it, as the script
/// names them.
#[derive(PartialEq, Eq, Debug)]
pub struct Keybind {
    pub key: Key,
    pub modifiers: Vec<Key>,
}

/// A [`Keybind`] as contracts see it.
pub struct KeybindView {
    pub key: Seq<char>,
    pub modifiers: Seq<Seq<char>>,
}

impl View for Keybind {
    type V = KeybindView;

    open spec fn view(&self) -> KeybindView {
        KeybindView { key: self.key@, modifiers: names(self.modifiers@) }
    }
}

impl Clone for Keybind {
    fn clone(&self) -> (bind: Self)
        ensures
            bind@ == self@,
    {
        let mut modifiers: Vec<Key> = Vec::new();
        let mut i: usize = 0;
        while i < self.modifiers.len()
            invariant
                i <= self.modifiers.len(),
                modifiers.len() == i,
                forall|j: int| 0 <= j < i ==> modifiers[j]@ == self.modifiers[j]@,
            decreases self.modifiers.len() - i,
        {
            modifiers.push(self.modifiers[i].clone());
            i += 1;
        }
        assert(names(modifiers@) =~= names(self.modifiers@));
        Keybind { key: self.key.clone(), modifiers }
    }
}

/// A value of the script, as far as the settings look into it.
#[derive(PartialEq, Eq, Debug)]
pub enum Value {
    /// An entry of the menu, such as `Action::Save`.
    Action(MenuActions),
    /// A key.
    Key(Key),
    /// A key with its modifiers.
    Keybind(Keybind),
    /// Anything else: a number, a text, a list.
    Other,
}

/// A [`Value`] as contracts see it.
pub enum ValueView {
    Action(MenuActions),
    Key(Seq<char>),
    Keybind(KeybindView),
    Other,
}

impl View for Value {
    type V = ValueView;

    open spec fn view(&self) -> ValueView {
        match self {
            Value::Action(action) => ValueView::Action(*action),
            Value::Key(key) => ValueView::Key(key@),
            Value::Keybind(bind) => ValueView::Keybind(bind@),
            Value::Other => ValueView::Other,
        }
    }
}

impl Clone for Value {
    fn clone(&self) -> (value: Self)
        ensures
            value@ == self@,
    {
        match self {
            Value::Action(action) => Value::Action(*action),
            Value::Key(key) => Value::Key(key.clone()),
            Value::Keybind(bind) => Value::Keybind(bind.clone()),
            Value::Other => Value::Other,
        }
    }
}

/// The values of a list as contracts see them.
pub open spec fn values(list: Seq<Value>) -> Seq<ValueView> {
    list.map_values(|value: Value| value@)
}

/// The keys among the values of a list, in the order of the list.
pub open spec fn keys_among(list: Seq<ValueView>) -> Seq<Seq<char>>
    decreases list.len(),
{
    if list.len() == 0 {
        Seq::empty()
    } else {
        let front = keys_among(list.drop_last());
        match list.last() {
            ValueView::Key(key) => front.push(key),
            _ => front,
        }
    }
}

impl Keybind {
    /// A key with the modifiers that a list of the script names. What is no
    /// key in that list is passed over.
    pub fn new(key: Key, modifiers: Vec<Value>) -> (bind: Self)
        ensures
            bind@.key == key@,
            bind@.modifiers == keys_among(values(modifiers@)),
    {
        let ghost list = values(modifiers@);
        let mut keys: Vec<Key> = Vec::new();
        let mut i: usize = 0;
        while i < modifiers.len()
            invariant
                i <= modifiers.len(),
                list == values(modifiers@),
                names(keys@) == keys_among(list.take(i as int)),
            decreases modifiers.len() - i,
        {
            proof {
                assert(list.take(i as int + 1).drop_last() == list.take(i as int));
            }
            match &modifiers[i] {
                Value::Key(key) => {
                    let key = key.clone();
                    proof {
                        assert(names(keys@.push(key)) == names(keys@).push(key@));
                    }
                    keys.push(key);
                },
                _ => {},
            }
            i += 1;
        }
        proof {
            assert(list.take(i as int) == list);
        }
        Self { key, modifiers: keys }
    }
}

/// A modifier key.
#[derive(Clone, Copy, Debug, Eq, Hash, PartialEq, Structural)]
pub enum Modifier {
    Super,
    Ctrl,
    Alt,
    Shift,
}

/// The name that the script has for a modifier key.
pub open spec fn name_of(modifier: Modifier) -> Seq<char> {
    match modifier {
        Modifier::Super => "Super"@,
        Modifier::Ctrl => "Ctrl"@,
        Modifier::Alt => "Alt"@,
        Modifier::Shift => "Shift"@,
    }
}

/// The modifier key that a name stands for, if it stands for one.
pub open spec fn modifier_named(name: Seq<char>) -> Option<Modifier> {
    if name == "Super"@ {
        Some(Modifier::Super)
    } else if name == "Ctrl"@ {
        Some(Modifier::Ctrl)
    } else if name == "Alt"@ {
        Some(Modifier::Alt)
    } else if name == "Shift"@ {
        Some(Modifier::Shift)
    } else {
        None
    }
}

/// The modifier keys that a list of names stands for. A name that stands for
/// none is passed over.
pub open spec fn modifiers_named(list: Seq<Seq<char>>) -> Seq<Modifier>
    decreases list.len(),
{
    if list.len() == 0 {
        Seq::empty()
    } else {
        let front = modifiers_named(list.drop_last());
        match modifier_named(list.last()) {
            Some(modifier) => front.push(modifier),
            None => front,
        }
    }
}

impl Modifier {
    /// The name that the script has for this modifier key.
    pub fn name(&self) -> (key: Key)
        ensures
            key@ == name_of(*self),
    {
        match self {
            Modifier::Super => Key(String::from_str("Super")),
            Modifier::Ctrl => Key(String::from_str("Ctrl")),
            Modifier::Alt => Key(String::from_str("Alt")),
            Modifier::Shift => Key(String::from_str("Shift")),
        }
    }

    /// The modifier key that `key` names, if it names one.
    pub fn named(key: &Key) -> (modifier: Option<Modifier>)
        ensures
            modifier == modifier_named(key@),
    {
        if key.0 == String::from_str("Super") {
            Some(Modifier::Super)
        } else if key.0 == String::from_str("Ctrl") {
            Some(Modifier::Ctrl)
        } else if key.0 == String::from_str("Alt") {
            Some(Modifier::Alt)
        } else if key.0 == String::from_str("Shift") {
            Some(Modifier::Shift)
        } else {
            None
        }
    }
}

/// The names that the script has for a list of modifier keys.
pub open spec fn names_of(list: Seq<Modifier>) -> Seq<Seq<char>> {
    list.map_values(|modifier: Modifier| name_of(modifier))
}

/// Each modifier key is named by its own name and by no other.
pub proof fn lemma_name_round_trip(modifier: Modifier)
    ensures
        modifier_named(name_of(modifier)) == Some(modifier),
{
    reveal_strlit("Super");
    reveal_strlit("Ctrl");
    reveal_strlit("Alt");
    reveal_strlit("Shift");
    assert("Super"@.len() == 5 && "Ctrl"@.len() == 4 && "Alt"@.len() == 3 && "Shift"@.len() == 5);
    assert("Super"@[1] == 'u' && "Shift"@[1] == 'h');
}

/// A key binding as the menu and the key press handler take it.
#[derive(PartialEq, Eq, Debug)]
pub struct MenuBind {
    pub modifiers: Vec<Modifier>,
    pub key: keyboard::Key,
}

/// A [`MenuBind`] as contracts see it.
pub struct MenuBindView {
    pub modifiers: Seq<Modifier>,
    pub key: KeyView,
}

impl View for MenuBind {
    type V = MenuBindView;

    open spec fn view(&self) -> MenuBindView {
        MenuBindView { modifiers: self.modifiers@, key: self.key@ }
    }
}

/// The binding that a key with its modifiers stands for.
pub open spec fn bind_of(bind: KeybindView) -> MenuBindView {
    MenuBindView {
        modifiers: modifiers_named(bind.modifiers),
        key: KeyView::Character(bind.key),
    }
}

/// The key with its modifiers that the script writes for a binding whose key
/// is a character.
pub open spec fn keybind_of(bind: MenuBindView) -> KeybindView
    recommends
        bind.key is Character,
{
    KeybindView { key: bind.key->Character_0, modifiers: names_of(bind.modifiers) }
}

/// Written down by their names and read again, the modifier keys of a list
/// are what they were.
pub proof fn lemma_names_round_trip(list: Seq<Modifier>)
    ensures
        modifiers_named(names_of(list)) == list,
    decreases list.len(),
{
    if list.len() > 0 {
        lemma_names_round_trip(list.drop_last());
        lemma_name_round_trip(list.last());
        assert(names_of(list).drop_last() == names_of(list.drop_last()));
        assert(list.drop_last().push(list.last()) == list);
    }
}

/// Written down as the script writes it and read again, a binding whose key
/// is a character is what it was.
pub proof fn lemma_bind_round_trip(bind: MenuBindView)
    requires
        bind.key is Character,
    ensures
        bind_of(keybind_of(bind)) == bind,
{
    lemma_names_round_trip(bind.modifiers);
}

/// Whether a key press with these modifier keys held down is the one that a
/// binding names: the key is the binding's key, and the modifier keys held
/// down are the binding's, all of them and no other. The case of a letter
/// does not tell keys apart: with Shift held down, the key `s` produces `S`.
pub open spec fn matches_press(bind: MenuBindView, modifiers: Modifiers, key: KeyView) -> bool {
    &&& same_key(key, bind.key)
    &&& modifiers.logo == bind.modifiers.contains(Modifier::Super)
    &&& modifiers.control == bind.modifiers.contains(Modifier::Ctrl)
    &&& modifiers.alt == bind.modifiers.contains(Modifier::Alt)
    &&& modifiers.shift == bind.modifiers.contains(Modifier::Shift)
}

impl Clone for MenuBind {
    fn clone(&self) -> (bind: Self)
        ensures
            bind@ == self@,
    {
        let mut modifiers: Vec<Modifier> = Vec::new();
        let mut i: usize = 0;
        while i < self.modifiers.len()
            invariant
                i <= self.modifiers.len(),
                modifiers@ == self.modifiers@.take(i as int),
            decreases self.modifiers.len() - i,
        {
            modifiers.push(self.modifiers[i]);
            assert(self.modifiers@.take(i as int + 1) == self.modifiers@.take(i as int).push(
                self.modifiers@[i as int],
            ));
            i += 1;
        }
        assert(self.modifiers@.take(i as int) == self.modifiers@);
        MenuBind { modifiers, key: self.key.clone() }
    }
}

impl MenuBind {
    /// The binding that a key with its modifiers stands for. A modifier of
    /// an unknown name is passed over.
    pub fn from(bind: Keybind) -> (menu: Self)
        ensures
            menu@ == bind_of(bind@),
    {
        let ghost list = names(bind.modifiers@);
        let mut modifiers: Vec<Modifier> = Vec::new();
        let mut i: usize = 0;
        while i < bind.modifiers.len()
            invariant
                i <= bind.modifiers.len(),
                list == names(bind.modifiers@),
                modifiers@ == modifiers_named(list.take(i as int)),
            decreases bind.modifiers.len() - i,
        {
            proof {
                assert(list.take(i as int + 1).drop_last() == list.take(i as int));
            }
            match Modifier::named(&bind.modifiers[i]) {
                Some(modifier) => {
                    modifiers.push(modifier);
                },
                None => {},
            }
            i += 1;
        }
        proof {
            assert(list.take(i as int) == list);
        }
        Self { modifiers, key: keyboard::Key::Character(bind.key.0) }
    }

    /// The key with its modifiers that the script would write for this
    /// binding, where its key is a character.
    pub fn keybind(&self) -> (bind: Option<Keybind>)
        ensures
            self@.key is Character ==> bind is Some && bind->0@ == keybind_of(self@),
            !(self@.key is Character) ==> bind is None,
    {
        match &self.key {
            keyboard::Key::Character(text) => {
                let mut keys: Vec<Key> = Vec::new();
                let mut i: usize = 0;
                while i < self.modifiers.len()
                    invariant
                        i <= self.modifiers.len(),
                        keys.len() == i,
                        forall|j: int| 0 <= j < i ==> keys[j]@ == name_of(self.modifiers[j]),
                    decreases self.modifiers.len() - i,
                {
                    keys.push(self.modifiers[i].name());
                    i += 1;
                }
                proof {
                    assert(names(keys@) =~= names_of(self.modifiers@));
                }
                Some(Keybind { key: Key(text.clone()), modifiers: keys })
            },
            _ => None,
        }
    }

    /// Whether a press of `key` with these modifier keys held down is the one
    /// that this binding names.
    pub fn matches(&self, modifiers: Modifiers, key: &keyboard::Key) -> (hit: bool)
        ensures
            hit == matches_press(self@, modifiers, key@),
    {
        key.same(&self.key) && modifiers.logo == holds(&self.modifiers, Modifier::Super)
            && modifiers.control == holds(&self.modifiers, Modifier::Ctrl) && modifiers.alt
            == holds(&self.modifiers, Modifier::Alt) && modifiers.shift == holds(
            &self.modifiers,
            Modifier::Shift,
        )
    }
}

/// Whether `modifier` is among `list`.
fn holds(list: &Vec<Modifier>, modifier: Modifier) -> (found: bool)
    ensures
        found == list@.contains(modifier),
{
    let mut i: usize = 0;
    while i < list.len()
        invariant
            i <= list.len(),
            forall|j: int| 0 <= j < i ==> list@[j] != modifier,
        decreases list.len() - i,
    {
        if list[i] == modifier {
            return true;
        }
        i += 1;
    }
    false
}

} // verus!
