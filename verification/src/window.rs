//! Classification of the focused window: terminal emulator or not.

use crate::text::{contains, from_utf8_lossy, lowercase, occurs_in, to_lowercase, trim, trimmed, utf8_lossy};
use vstd::prelude::*;
use vstd::string::*;

verus! {

/// The window classes of the known terminal emulators, in lower case.
pub open spec fn terminal_class_names() -> Seq<Seq<char>> {
    seq![
        "konsole"@,
        "org.kde.konsole"@,
        "kitty"@,
        "alacritty"@,
        "gnome-terminal"@,
        "org.gnome.terminal"@,
        "xterm"@,
        "urxvt"@,
        "terminator"@,
        "tilix"@,
        "xfce4-terminal"@,
        "mate-terminal"@,
        "lxterminal"@,
        "st"@,
        "foot"@,
        "wezterm"@,
        "com.mitchellh.ghostty"@,
        "ghostty"@,
    ]
}

/// Whether a class name, already in lower case, holds the name of a known
/// terminal emulator somewhere inside it.
pub open spec fn names_terminal(class: Seq<char>) -> bool {
    exists|k: int|
        0 <= k < terminal_class_names().len() && occurs_in(
            #[trigger] terminal_class_names()[k],
            class,
        )
}

/// Whether a window of class `class` counts as a terminal emulator: its
/// lowercase form holds one of the known names.
pub open spec fn is_terminal(class: Seq<char>) -> bool {
    names_terminal(lowercase(class))
}

/// Whether the output of a window-introspection tool names a terminal
/// emulator: the bytes are decoded leniently, trimmed and classified.
pub open spec fn output_names_terminal(output: Seq<u8>) -> bool {
    is_terminal(trimmed(utf8_lossy(output)))
}

/// The table of known terminal emulator classes.
pub fn terminal_classes() -> (names: Vec<&'static str>)
    ensures
        names@.len() == terminal_class_names().len(),
        forall|k: int| 0 <= k < names@.len() ==> (#[trigger] names@[k])@ == terminal_class_names()[k],
{
    vec![
        "konsole",
        "org.kde.konsole",
        "kitty",
        "alacritty",
        "gnome-terminal",
        "org.gnome.terminal",
        "xterm",
        "urxvt",
        "terminator",
        "tilix",
        "xfce4-terminal",
        "mate-terminal",
        "lxterminal",
        "st",
        "foot",
        "wezterm",
        "com.mitchellh.ghostty",
        "ghostty",
    ]
}

/// Whether a class name that is already in lower case holds the name of a
/// known terminal emulator.
pub fn holds_terminal_name(class: &str) -> (terminal: bool)
    ensures
        terminal == names_terminal(class@),
{
    let names = terminal_classes();
    let mut k: usize = 0;
    while k < names.len()
        invariant
            k <= names@.len(),
            names@.len() == terminal_class_names().len(),
            forall|j: int|
                0 <= j < names@.len() ==> (#[trigger] names@[j])@ == terminal_class_names()[j],
            forall|j: int|
                0 <= j < k ==> !occurs_in(#[trigger] terminal_class_names()[j], class@),
        decreases names@.len() - k,
    {
        if contains(class, names[k]) {
            assert(occurs_in(terminal_class_names()[k as int], class@));
            return true;
        }
        k += 1;
    }
    false
}

/// Classifies a window class name, whatever its letter case.
pub fn is_terminal_class(class: &str) -> (terminal: bool)
    ensures
        terminal == is_terminal(class@),
{
    let lower = to_lowercase(class);
    holds_terminal_name(lower.as_str())
}

/// The class name that a window-introspection tool printed: its output,
/// decoded leniently and trimmed.
pub fn window_class_name(output: &Vec<u8>) -> (class: String)
    ensures
        class@ == trimmed(utf8_lossy(output@)),
{
    let text = from_utf8_lossy(output.as_slice());
    String::from_str(trim(text.as_str()))
}

/// Classifies what a window-introspection tool printed for the focused
/// window.
pub fn is_terminal_output(output: &Vec<u8>) -> (terminal: bool)
    ensures
        terminal == output_names_terminal(output@),
{
    let class = window_class_name(output);
    is_terminal_class(class.as_str())
}

/// The classification by name. A class whose lowercase form is one of the
/// known names, or holds one anywhere inside it, is a terminal; a class
/// whose lowercase form holds none of them is not.
pub proof fn known_names_are_terminals(class: Seq<char>, k: int)
    requires
        0 <= k < terminal_class_names().len(),
    ensures
        terminal_class_names().len() == 18,
        lowercase(class) == terminal_class_names()[k] ==> is_terminal(class),
        occurs_in(terminal_class_names()[k], lowercase(class)) ==> is_terminal(class),
        (forall|j: int|
            0 <= j < terminal_class_names().len() ==> !occurs_in(
                #[trigger] terminal_class_names()[j],
                lowercase(class),
            )) ==> !is_terminal(class),
{
    let name = terminal_class_names()[k];
    if lowercase(class) == name {
        assert(name.subrange(0, 0 + name.len() as int) =~= name);
    }
}

} // verus!
