use vstd::prelude::*;
use vstd::string::*;

verus! {

/// A key that has a name in place of a character.
#[derive(PartialEq, Eq, Debug)]
pub enum Named {
    /// The tabulator key.
    Tab,
    /// Any other named key, by the name that the toolkit has for it.
    Other(String),
}

/// A [`Named`] as contracts see it.
pub enum NamedView {
    Tab,
    Other(Seq<char>),
}

impl View for Named {
    type V = NamedView;

    open spec fn view(&self) -> NamedView {
        match self {
            Named::Tab => NamedView::Tab,
            Named::Other(name) => NamedView::Other(name@),
        }
    }
}

impl Clone for Named {
    fn clone(&self) -> (named: Self)
        ensures
            named@ == self@,
    {
        match self {
            Named::Tab => Named::Tab,
            Named::Other(name) => Named::Other(name.clone()),
        }
    }
}

/// The key of a key press.
#[derive(PartialEq, Eq, Debug)]
pub enum Key {
    /// A key with a name.
    Named(Named),
    /// A key that produces text.
    Character(String),
    /// A key that the toolkit could not identify.
    Unidentified,
}

/// A [`Key`] as contracts see it.
pub enum KeyView {
    Named(NamedView),
    Character(Seq<char>),
    Unidentified,
}

impl View for Key {
    type V = KeyView;

    open spec fn view(&self) -> KeyView {
        match self {
            Key::Named(named) => KeyView::Named(named@),
            Key::Character(text) => KeyView::Character(text@),
            Key::Unidentified => KeyView::Unidentified,
        }
    }
}

impl Clone for Key {
    fn clone(&self) -> (key: Self)
        ensures
            key@ == self@,
    {
        match self {
            Key::Named(named) => Key::Named(named.clone()),
            Key::Character(text) => Key::Character(text.clone()),
            Key::Unidentified => Key::Unidentified,
        }
    }
}

/// A character with a capital letter of ASCII turned into the small one.
pub open spec fn lower(c: char) -> char {
    if 'A' <= c && c <= 'Z' {
        ((c as u32) + 32) as char
    } else {
        c
    }
}

/// A text with its capital letters of ASCII turned into small ones.
pub open spec fn folded(text: Seq<char>) -> Seq<char> {
    text.map_values(|c: char| lower(c))
}

/// Whether two keys are the same key of the keyboard. Shift and the caps
/// lock change the case of the character that a key produces and not the
/// key, so two characters are the same key where they differ in nothing but
/// the case of letters of ASCII. Any other two keys are the same key where
/// they are equal.
pub open spec fn same_key(a: KeyView, b: KeyView) -> bool {
    match (a, b) {
        (KeyView::Character(x), KeyView::Character(y)) => folded(x) == folded(y),
        _ => a == b,
    }
}

/// Whether two characters differ in nothing but the case of a letter of
/// ASCII.
fn same_letter(a: char, b: char) -> (same: bool)
    ensures
        same == (lower(a) == lower(b)),
{
    let x = a as u32;
    let y = b as u32;
    let low_x = if 65 <= x && x <= 90 {
        x + 32
    } else {
        x
    };
    let low_y = if 65 <= y && y <= 90 {
        y + 32
    } else {
        y
    };
    assert(lower(a) as u32 == low_x);
    assert(lower(b) as u32 == low_y);
    low_x == low_y
}

/// Whether two texts differ in nothing but the case of letters of ASCII.
fn same_text(a: &String, b: &String) -> (same: bool)
    ensures
        same == (folded(a@) == folded(b@)),
{
    let len = a.as_str().unicode_len();
    if len != b.as_str().unicode_len() {
        assert(folded(a@).len() != folded(b@).len());
        return false;
    }
    let mut i: usize = 0;
    while i < len
        invariant
            i <= len,
            len == a@.len(),
            len == b@.len(),
            forall|j: int| 0 <= j < i ==> lower(a@[j]) == lower(b@[j]),
        decreases len - i,
    {
        if !same_letter(a.as_str().get_char(i), b.as_str().get_char(i)) {
            assert(folded(a@)[i as int] != folded(b@)[i as int]);
            return false;
        }
        i += 1;
    }
    assert(folded(a@) =~= folded(b@));
    true
}

impl Key {
    /// Whether two keys are the same key of the keyboard.
    pub fn same(&self, other: &Key) -> (same: bool)
        ensures
            same == same_key(self@, other@),
    {
        match (self, other) {
            (Key::Named(Named::Tab), Key::Named(Named::Tab)) => true,
            (Key::Named(Named::Other(a)), Key::Named(Named::Other(b))) => *a == *b,
            (Key::Character(a), Key::Character(b)) => same_text(a, b),
            (Key::Unidentified, Key::Unidentified) => true,
            _ => false,
        }
    }
}

/// The modifier keys that are held down during a key press.
#[derive(Clone, Copy, PartialEq, Eq, Structural, Debug)]
pub struct Modifiers {
    pub shift: bool,
    pub control: bool,
    pub alt: bool,
    pub logo: bool,
}

impl Modifiers {
    /// No modifier key held down.
    pub fn none() -> (modifiers: Modifiers)
        ensures
            modifiers == (Modifiers { shift: false, control: false, alt: false, logo: false }),
    {
        Modifiers { shift: false, control: false, alt: false, logo: false }
    }
}

} // verus!
