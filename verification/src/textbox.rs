use crate::text::buffer_of;
use tui_textarea::{Input, Key, TextArea};
use vstd::prelude::*;

verus! {

/// One key as the core reads it. Keys that mean nothing to the core and
/// nothing to a text buffer are carried as `Null`.
#[derive(Clone, Copy, PartialEq, Eq, Structural, Debug)]
pub enum KeyCode {
    Char(char),
    Backspace,
    Delete,
    Enter,
    Tab,
    Esc,
    Up,
    Down,
    Left,
    Right,
    Home,
    End,
    PageUp,
    PageDown,
    Null,
}

/// One keyboard input: the key pressed and the modifiers that came with it.
#[derive(Clone, Copy, PartialEq, Eq, Structural, Debug)]
pub struct KeyInput {
    pub code: KeyCode,
    pub ctrl: bool,
    pub alt: bool,
    pub shift: bool,
}

impl KeyInput {
    /// The given key with no modifier held down.
    pub fn plain(code: KeyCode) -> (r: KeyInput)
        ensures
            r == (KeyInput { code, ctrl: false, alt: false, shift: false }),
    {
        KeyInput { code, ctrl: false, alt: false, shift: false }
    }

    /// The given key with only the ctrl modifier held down.
    pub fn ctrl(code: KeyCode) -> (r: KeyInput)
        ensures
            r == (KeyInput { code, ctrl: true, alt: false, shift: false }),
    {
        KeyInput { code, ctrl: true, alt: false, shift: false }
    }
}

/// An editable text buffer, backed by a text area of the outside editor
/// widget. The box is opaque here: its contents are reached only through
/// `text_lines` and the trusted functions below.
#[verifier::external_body]
pub struct TextBox<'a> {
    /// The widget itself, for the renderer to borrow directly.
    pub area: TextArea<'a>,
}

/// The lines of text a text box holds.
pub uninterp spec fn text_lines(tb: TextBox) -> Seq<Seq<char>>;

/// Relies on tui_textarea::TextArea::default: a fresh text area holds one
/// single empty line.
#[verifier::external_body]
pub fn tb_empty<'a>() -> (r: TextBox<'a>)
    ensures
        text_lines(r) == seq![Seq::<char>::empty()],
{
    TextBox { area: TextArea::default() }
}

/// Relies on tui_textarea::TextArea::new: a text area built from lines
/// holds exactly those lines, or one single empty line when none are given.
#[verifier::external_body]
pub fn tb_from_lines<'a>(lines: Vec<String>) -> (r: TextBox<'a>)
    ensures
        text_lines(r) == buffer_of(lines.deep_view()),
{
    TextBox { area: TextArea::new(lines) }
}

/// Relies on tui_textarea::TextArea::lines: the lines the text area holds,
/// of which there is always at least one.
#[verifier::external_body]
pub fn tb_lines(tb: &TextBox<'_>) -> (r: Vec<String>)
    ensures
        r.deep_view() == text_lines(*tb),
        r.len() >= 1,
{
    tb.area.lines().to_vec()
}

/// The lines a text box holds after one key is fed to it. The widget's
/// editing is a function of the box's whole value (cursor included) and
/// the key alone, so the result bears a name.
pub uninterp spec fn apply_of(tb: TextBox, k: KeyInput) -> Seq<Seq<char>>;

/// Relies on tui_textarea::TextArea::input: one key edits the text area in
/// place; the lines it then holds are those of exactly this box and this
/// key, and there is always at least one of them.
#[verifier::external_body]
pub fn tb_apply(tb: &mut TextBox<'_>, k: KeyInput)
    ensures
        text_lines(*final(tb)) == apply_of(*old(tb), k),
        text_lines(*final(tb)).len() >= 1,
{
    let key = match k.code {
        KeyCode::Char(c) => Key::Char(c),
        KeyCode::Backspace => Key::Backspace, KeyCode::Delete => Key::Delete,
        KeyCode::Enter => Key::Enter, KeyCode::Tab => Key::Tab, KeyCode::Esc => Key::Esc,
        KeyCode::Up => Key::Up, KeyCode::Down => Key::Down,
        KeyCode::Left => Key::Left, KeyCode::Right => Key::Right,
        KeyCode::Home => Key::Home, KeyCode::End => Key::End,
        KeyCode::PageUp => Key::PageUp, KeyCode::PageDown => Key::PageDown,
        KeyCode::Null => Key::Null,
    };
    tb.area.input(Input { key, ctrl: k.ctrl, alt: k.alt, shift: k.shift });
}

} // verus!
