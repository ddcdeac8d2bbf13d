use vstd::prelude::*;
use vstd::string::*;
use crate::session::keyboard;
use crate::session::message::MenuActions;
use crate::utils::cfg::DefaultBytes;
use crate::utils::cfg::flags::{Flags, binds, on_characters};
use crate::utils::cfg::script::keybinds::{MenuBind, MenuBindView, Modifier, name_of};

pub mod color;
pub mod keybinds;

verus! {

/// The script that is written where the user has none. It hands over the
/// settings as they come.
pub const DEFAULT_CFG: &'static str = "let flags = flags();\n\nflags\n";

/// What the configuration script came to.
pub struct ScriptCfg {
    pub flags: Flags,
}

impl DefaultBytes for ScriptCfg {
    /// The text of the script that is written where the user has none.
    fn default_bytes() -> (bytes: Vec<u8>)
        ensures
            bytes@ == DEFAULT_CFG.spec_bytes(),
    {
        DEFAULT_CFG.as_bytes_vec()
    }
}

/// The name that the script has for an entry of the menu, behind `Action::`.
pub open spec fn action_name(action: MenuActions) -> Seq<char> {
    match action {
        MenuActions::Save => "Save"@,
        MenuActions::SaveAs => "SaveAs"@,
        MenuActions::OpenFile => "OpenFile"@,
        MenuActions::NewFile => "NewFile"@,
        MenuActions::GoHome => "GoHome"@,
    }
}

/// A character as it stands between the quotes of a text of the script.
pub open spec fn escape(c: char) -> Seq<char> {
    if c == '\\' {
        "\\\\"@
    } else if c == '"' {
        "\\\""@
    } else if c == '\n' {
        "\\n"@
    } else if c == '\r' {
        "\\r"@
    } else if c == '\t' {
        "\\t"@
    } else {
        seq![c]
    }
}

/// A text as it stands between the quotes of a text of the script.
pub open spec fn escaped(text: Seq<char>) -> Seq<char>
    decreases text.len(),
{
    if text.len() == 0 {
        Seq::empty()
    } else {
        escaped(text.drop_last()) + escape(text.last())
    }
}

/// The modifier keys of a binding as the script lists them, a comma behind
/// each.
pub open spec fn modifiers_text(list: Seq<Modifier>) -> Seq<char>
    decreases list.len(),
{
    if list.len() == 0 {
        Seq::empty()
    } else {
        modifiers_text(list.drop_last()) + "Modifier::"@ + name_of(list.last()) + ","@
    }
}

/// A key binding as the script writes it: a map with the entry of the menu
/// and the key with its modifiers, and a comma behind it.
pub open spec fn binding_text(binding: (MenuBindView, MenuActions)) -> Seq<char>
    recommends
        binding.0.key is Character,
{
    "#{action:Action::"@ + action_name(binding.1) + ",keybind:keybind(key(\""@ + escaped(
        binding.0.key->Character_0,
    ) + "\"),["@ + modifiers_text(binding.0.modifiers) + "])},\n"@
}

/// The key bindings of a table as the script writes them, one to a line.
pub open spec fn bindings_text(table: Seq<(MenuBindView, MenuActions)>) -> Seq<char>
    decreases table.len(),
{
    if table.len() == 0 {
        Seq::empty()
    } else {
        bindings_text(table.drop_last()) + binding_text(table.last())
    }
}

/// The script that hands over the settings as they come, but for the key
/// bindings, which are those of `table`.
pub open spec fn script_text(table: Seq<(MenuBindView, MenuActions)>) -> Seq<char> {
    "let flags = flags();\n\nflags.general_keybinds = [\n"@ + bindings_text(table)
        + "];\n\nflags\n"@
}

/// Writes `text` behind `out`, as it stands between the quotes of a text of
/// the script.
fn write_escaped(out: &mut String, text: &String)
    ensures
        final(out)@ == old(out)@ + escaped(text@),
{
    let len = text.as_str().unicode_len();
    let ghost start = out@;
    let mut i: usize = 0;
    while i < len
        invariant
            i <= len,
            len == text@.len(),
            out@ == start + escaped(text@.take(i as int)),
        decreases len - i,
    {
        let c = text.as_str().get_char(i);
        proof {
            assert(text@.take(i as int + 1).drop_last() == text@.take(i as int));
            assert(text@.take(i as int + 1).last() == c);
            reveal_strlit("\\\\");
            reveal_strlit("\\\"");
            reveal_strlit("\\n");
            reveal_strlit("\\r");
            reveal_strlit("\\t");
        }
        let ghost before = out@;
        if c == '\\' {
            out.append("\\\\");
        } else if c == '"' {
            out.append("\\\"");
        } else if c == '\n' {
            out.append("\\n");
        } else if c == '\r' {
            out.append("\\r");
        } else if c == '\t' {
            out.append("\\t");
        } else {
            out.append(text.as_str().substring_char(i, i + 1));
            assert(text@.subrange(i as int, i + 1) == seq![c]);
        }
        assert(out@ == start + escaped(text@.take(i as int)) + escape(c));
        assert(out@ == start + (escaped(text@.take(i as int)) + escape(c)));
        i += 1;
    }
    assert(text@.take(len as int) == text@);
}

/// Writes the modifier keys of `list` behind `out`, as the script lists
/// them.
fn write_modifiers(out: &mut String, list: &Vec<Modifier>)
    ensures
        final(out)@ == old(out)@ + modifiers_text(list@),
{
    let ghost start = out@;
    let mut i: usize = 0;
    while i < list.len()
        invariant
            i <= list.len(),
            out@ == start + modifiers_text(list@.take(i as int)),
        decreases list.len() - i,
    {
        proof {
            assert(list@.take(i as int + 1).drop_last() == list@.take(i as int));
        }
        let ghost before = out@;
        out.append("Modifier::");
        let name = list[i].name();
        out.append(name.0.as_str());
        out.append(",");
        assert(out@ == start + (modifiers_text(list@.take(i as int)) + "Modifier::"@ + name_of(
            list@[i as int],
        ) + ","@));
        i += 1;
    }
    assert(list@.take(list.len() as int) == list@);
}

/// The name that the script has for an entry of the menu.
fn name_of_action(action: MenuActions) -> (name: &'static str)
    ensures
        name@ == action_name(action),
{
    match action {
        MenuActions::Save => "Save",
        MenuActions::SaveAs => "SaveAs",
        MenuActions::OpenFile => "OpenFile",
        MenuActions::NewFile => "NewFile",
        MenuActions::GoHome => "GoHome",
    }
}

/// The script that hands over the settings as they come, but for the key
/// bindings, which are those of `keybinds`, in their order. `None` where the
/// key of a binding is no character, which no script can write.
pub fn keybinds_script(keybinds: &Vec<(MenuBind, MenuActions)>) -> (script: Option<String>)
    ensures
        match script {
            Some(script) => on_characters(binds(keybinds@)) && script@ == script_text(
                binds(keybinds@),
            ),
            None => !on_characters(binds(keybinds@)),
        },
{
    let ghost table = binds(keybinds@);
    let mut out = String::from_str("let flags = flags();\n\nflags.general_keybinds = [\n");
    let ghost start = out@;
    let mut i: usize = 0;
    while i < keybinds.len()
        invariant
            i <= keybinds.len(),
            table == binds(keybinds@),
            start == "let flags = flags();\n\nflags.general_keybinds = [\n"@,
            forall|j: int| 0 <= j < i ==> (#[trigger] table[j]).0.key is Character,
            out@ == start + bindings_text(table.take(i as int)),
        decreases keybinds.len() - i,
    {
        proof {
            assert(table.take(i as int + 1).drop_last() == table.take(i as int));
            assert(table.take(i as int + 1).last() == table[i as int]);
        }
        match &keybinds[i].0.key {
            keyboard::Key::Character(text) => {
                let ghost before = out@;
                out.append("#{action:Action::");
                out.append(name_of_action(keybinds[i].1));
                out.append(",keybind:keybind(key(\"");
                write_escaped(&mut out, text);
                out.append("\"),[");
                write_modifiers(&mut out, &keybinds[i].0.modifiers);
                out.append("])},\n");
                assert(out@ == before + binding_text(table[i as int]));
                assert(out@ == start + (bindings_text(table.take(i as int)) + binding_text(
                    table[i as int],
                )));
            },
            _ => {
                assert(!(table[i as int].0.key is Character));
                return None;
            },
        }
        i += 1;
    }
    assert(table.take(i as int) == table);
    out.append("];\n\nflags\n");
    Some(out)
}

} // verus!
