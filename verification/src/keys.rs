//! Key events and the key bindings of the session list.

use vstd::prelude::*;
use vstd::string::StringExecFns;
use crate::text::{decimal, decimal_text, optional_view};

verus! {

#[derive(Clone, Copy, Debug, PartialEq, Eq, Structural)]
pub enum KeyCode {
    Backspace,
    Enter,
    Left,
    Right,
    Up,
    Down,
    Home,
    End,
    PageUp,
    PageDown,
    Tab,
    BackTab,
    Delete,
    Insert,
    Esc,
    Function(u8),
    Char(char),
    /// A key that no binding of the picker names, by a number of the terminal's own.
    Other(u32),
}

#[derive(Clone, Copy, Debug, PartialEq, Eq, Structural)]
pub struct KeyModifiers {
    pub shift: bool,
    pub control: bool,
    pub alt: bool,
    /// Further modifiers, as bits.
    pub other: u8,
}

#[derive(Clone, Copy, Debug, PartialEq, Eq, Structural)]
pub enum KeyEventKind {
    Press,
    Repeat,
    Release,
}

#[derive(Clone, Copy, Debug, PartialEq, Eq, Structural)]
pub struct KeyEvent {
    pub code: KeyCode,
    pub modifiers: KeyModifiers,
    pub kind: KeyEventKind,
}

pub open spec fn no_modifiers() -> KeyModifiers {
    KeyModifiers { shift: false, control: false, alt: false, other: 0 }
}

pub open spec fn plain_key(code: KeyCode) -> KeyEvent {
    KeyEvent { code, modifiers: no_modifiers(), kind: KeyEventKind::Press }
}

impl KeyModifiers {
    pub fn none() -> (r: KeyModifiers)
        ensures
            r == no_modifiers(),
    {
        KeyModifiers { shift: false, control: false, alt: false, other: 0 }
    }

    pub fn control() -> (r: KeyModifiers)
        ensures
            r == (KeyModifiers { control: true, ..no_modifiers() }),
    {
        KeyModifiers { shift: false, control: true, alt: false, other: 0 }
    }
}

impl KeyEvent {
    /// A press of a key.
    pub fn new(code: KeyCode, modifiers: KeyModifiers) -> (r: KeyEvent)
        ensures
            r == (KeyEvent { code, modifiers, kind: KeyEventKind::Press }),
    {
        KeyEvent { code, modifiers, kind: KeyEventKind::Press }
    }
}

/// The event types a character that goes into a text: no control and no alt key is held.
pub open spec fn is_plain_text(key: KeyEvent) -> bool {
    key.code is Char && !key.modifiers.control && !key.modifiers.alt
}

pub fn is_plain_text_key_event(key: KeyEvent) -> (r: bool)
    ensures
        r == is_plain_text(key),
{
    match key.code {
        KeyCode::Char(_) => !key.modifiers.control && !key.modifiers.alt,
        _ => false,
    }
}

/// The event is that of a character with the control key held.
pub open spec fn is_control_char(key: KeyEvent, ch: char) -> bool {
    key.code == KeyCode::Char(ch) && key.modifiers.control
}

/// The event is that of a control character without any modifier, as some terminals send it.
pub open spec fn is_raw_char(key: KeyEvent, ch: char) -> bool {
    key.code == KeyCode::Char(ch) && key.modifiers == no_modifiers()
}

pub fn control_char(key: KeyEvent, ch: char) -> (r: bool)
    ensures
        r == is_control_char(key, ch),
{
    key.code == KeyCode::Char(ch) && key.modifiers.control
}

pub fn raw_char(key: KeyEvent, ch: char) -> (r: bool)
    ensures
        r == is_raw_char(key, ch),
{
    key.code == KeyCode::Char(ch) && key.modifiers == KeyModifiers::none()
}

#[derive(Clone, Copy, Debug, PartialEq, Eq, Structural)]
pub struct KeyBinding {
    pub code: KeyCode,
    pub modifiers: KeyModifiers,
}

impl KeyBinding {
    pub fn plain(code: KeyCode) -> (r: KeyBinding)
        ensures
            r == (KeyBinding { code, modifiers: no_modifiers() }),
    {
        KeyBinding { code, modifiers: KeyModifiers::none() }
    }

    pub fn ctrl(code: KeyCode) -> (r: KeyBinding)
        ensures
            r == (KeyBinding { code, modifiers: (KeyModifiers { control: true, ..no_modifiers() }) }),
    {
        KeyBinding { code, modifiers: KeyModifiers::control() }
    }

    /// The event presses this binding: its key with exactly its modifiers.
    pub open spec fn presses(self, key: KeyEvent) -> bool {
        self.code == key.code && self.modifiers == key.modifiers && !(key.kind is Release)
    }

    pub fn is_press(&self, key: KeyEvent) -> (r: bool)
        ensures
            r == self.presses(key),
    {
        self.code == key.code && self.modifiers == key.modifiers && key.kind
            != KeyEventKind::Release
    }

    /// How the binding is told to the user.
    pub open spec fn label(self) -> Seq<char> {
        (if self.modifiers.control {
            "ctrl + "@
        } else {
            ""@
        }) + (if self.modifiers.shift {
            "shift + "@
        } else {
            ""@
        }) + (if self.modifiers.alt {
            "alt + "@
        } else {
            ""@
        }) + code_label(self.code)
    }

    pub fn display_label(&self) -> (r: String)
        ensures
            r@ == self.label(),
    {
        let mut text = String::new();
        text.append(if self.modifiers.control { "ctrl + " } else { "" });
        text.append(if self.modifiers.shift { "shift + " } else { "" });
        text.append(if self.modifiers.alt { "alt + " } else { "" });
        let code = code_text(self.code);
        text.append(code.as_str());
        proof {
            assert(text@ =~= self.label());
        }
        text
    }
}

/// `ch` in lower case where it is an ASCII letter.
pub open spec fn ascii_lower(ch: char) -> char {
    if 'A' <= ch <= 'Z' {
        (ch as int + 32) as char
    } else {
        ch
    }
}

pub open spec fn code_label(code: KeyCode) -> Seq<char> {
    match code {
        KeyCode::Backspace => "backspace"@,
        KeyCode::Enter => "enter"@,
        KeyCode::Left => "←"@,
        KeyCode::Right => "→"@,
        KeyCode::Up => "↑"@,
        KeyCode::Down => "↓"@,
        KeyCode::Home => "home"@,
        KeyCode::End => "end"@,
        KeyCode::PageUp => "pgup"@,
        KeyCode::PageDown => "pgdn"@,
        KeyCode::Tab => "tab"@,
        KeyCode::BackTab => "back tab"@,
        KeyCode::Delete => "delete"@,
        KeyCode::Insert => "insert"@,
        KeyCode::Esc => "esc"@,
        KeyCode::Function(number) => "f"@ + decimal(number as nat),
        KeyCode::Char(ch) => if ch == ' ' {
            "space"@
        } else {
            seq![ascii_lower(ch)]
        },
        KeyCode::Other(number) => "key "@ + decimal(number as nat),
    }
}

fn code_text(code: KeyCode) -> (r: String)
    ensures
        r@ == code_label(code),
{
    match code {
        KeyCode::Backspace => "backspace".to_owned(),
        KeyCode::Enter => "enter".to_owned(),
        KeyCode::Left => "←".to_owned(),
        KeyCode::Right => "→".to_owned(),
        KeyCode::Up => "↑".to_owned(),
        KeyCode::Down => "↓".to_owned(),
        KeyCode::Home => "home".to_owned(),
        KeyCode::End => "end".to_owned(),
        KeyCode::PageUp => "pgup".to_owned(),
        KeyCode::PageDown => "pgdn".to_owned(),
        KeyCode::Tab => "tab".to_owned(),
        KeyCode::BackTab => "back tab".to_owned(),
        KeyCode::Delete => "delete".to_owned(),
        KeyCode::Insert => "insert".to_owned(),
        KeyCode::Esc => "esc".to_owned(),
        KeyCode::Function(number) => {
            let mut text = "f".to_owned();
            text.append(decimal_text(number as u64).as_str());
            text
        },
        KeyCode::Char(ch) => {
            if ch == ' ' {
                "space".to_owned()
            } else {
                let lower = if 'A' <= ch && ch <= 'Z' {
                    (ch as u8 + 32) as char
                } else {
                    ch
                };
                let mut text = String::new();
                text.push(lower);
                proof {
                    assert(text@ =~= seq![ascii_lower(ch)]);
                }
                text
            }
        },
        KeyCode::Other(number) => {
            let mut text = "key ".to_owned();
            text.append(decimal_text(number as u64).as_str());
            text
        },
    }
}

/// One of the bindings is pressed.
pub open spec fn pressed(bindings: Seq<KeyBinding>, key: KeyEvent) -> bool {
    exists|i: int| 0 <= i < bindings.len() && (#[trigger] bindings[i]).presses(key)
}

pub fn is_pressed(bindings: &Vec<KeyBinding>, key: KeyEvent) -> (r: bool)
    ensures
        r == pressed(bindings@, key),
{
    let mut i: usize = 0;
    while i < bindings.len()
        invariant
            i <= bindings.len(),
            forall|j: int| 0 <= j < i ==> !(#[trigger] bindings@[j]).presses(key),
        decreases bindings.len() - i,
    {
        if bindings[i].is_press(key) {
            return true;
        }
        i += 1;
    }
    false
}

#[derive(Clone, Copy, Debug, PartialEq, Eq, Structural)]
pub enum ListAction {
    MoveUp,
    MoveDown,
    MoveLeft,
    MoveRight,
    Accept,
    Cancel,
}

/// The bindings of the session list. A list without a binding cannot be pressed.
#[derive(Debug)]
pub struct ListKeymap {
    pub move_up: Vec<KeyBinding>,
    pub move_down: Vec<KeyBinding>,
    pub move_left: Vec<KeyBinding>,
    pub move_right: Vec<KeyBinding>,
    pub page_up: Vec<KeyBinding>,
    pub page_down: Vec<KeyBinding>,
    pub jump_top: Vec<KeyBinding>,
    pub jump_bottom: Vec<KeyBinding>,
    pub accept: Vec<KeyBinding>,
    pub cancel: Vec<KeyBinding>,
}

impl ListKeymap {
    pub open spec fn bindings_of(self, action: ListAction) -> Seq<KeyBinding> {
        match action {
            ListAction::MoveUp => self.move_up@,
            ListAction::MoveDown => self.move_down@,
            ListAction::MoveLeft => self.move_left@,
            ListAction::MoveRight => self.move_right@,
            ListAction::Accept => self.accept@,
            ListAction::Cancel => self.cancel@,
        }
    }

    /// The label of an action's first binding, if it has one.
    pub open spec fn hint(self, action: ListAction) -> Option<Seq<char>> {
        if self.bindings_of(action).len() > 0 {
            Some(self.bindings_of(action)[0].label())
        } else {
            None
        }
    }

    /// The label of an action's first binding, if it has one.
    pub fn primary_hint(&self, action: ListAction) -> (r: Option<String>)
        ensures
            optional_view(r) == self.hint(action),
    {
        let bindings = match action {
            ListAction::MoveUp => &self.move_up,
            ListAction::MoveDown => &self.move_down,
            ListAction::MoveLeft => &self.move_left,
            ListAction::MoveRight => &self.move_right,
            ListAction::Accept => &self.accept,
            ListAction::Cancel => &self.cancel,
        };
        if bindings.len() > 0 {
            Some(bindings[0].display_label())
        } else {
            None
        }
    }

    /// The bindings that hold where nothing is configured.
    pub open spec fn is_default(self) -> bool {
        &&& self.move_up@ =~= seq![KeyBinding { code: KeyCode::Up, modifiers: no_modifiers() }]
        &&& self.move_down@ =~= seq![KeyBinding { code: KeyCode::Down, modifiers: no_modifiers() }]
        &&& self.move_left@ =~= seq![
            KeyBinding { code: KeyCode::Left, modifiers: no_modifiers() },
            control_binding('h'),
        ]
        &&& self.move_right@ =~= seq![
            KeyBinding { code: KeyCode::Right, modifiers: no_modifiers() },
            control_binding('l'),
        ]
        &&& self.page_up@ =~= seq![KeyBinding { code: KeyCode::PageUp, modifiers: no_modifiers() }]
        &&& self.page_down@ =~= seq![
            KeyBinding { code: KeyCode::PageDown, modifiers: no_modifiers() },
        ]
        &&& self.jump_top@ =~= seq![KeyBinding { code: KeyCode::Home, modifiers: no_modifiers() }]
        &&& self.jump_bottom@ =~= seq![KeyBinding { code: KeyCode::End, modifiers: no_modifiers() }]
        &&& self.accept@ =~= seq![KeyBinding { code: KeyCode::Enter, modifiers: no_modifiers() }]
        &&& self.cancel@ =~= seq![KeyBinding { code: KeyCode::Esc, modifiers: no_modifiers() }]
    }

    pub fn defaults() -> (r: ListKeymap)
        ensures
            r.is_default(),
    {
        ListKeymap {
            move_up: vec![KeyBinding::plain(KeyCode::Up)],
            move_down: vec![KeyBinding::plain(KeyCode::Down)],
            move_left: vec![KeyBinding::plain(KeyCode::Left), KeyBinding::ctrl(KeyCode::Char('h'))],
            move_right: vec![
                KeyBinding::plain(KeyCode::Right),
                KeyBinding::ctrl(KeyCode::Char('l')),
            ],
            page_up: vec![KeyBinding::plain(KeyCode::PageUp)],
            page_down: vec![KeyBinding::plain(KeyCode::PageDown)],
            jump_top: vec![KeyBinding::plain(KeyCode::Home)],
            jump_bottom: vec![KeyBinding::plain(KeyCode::End)],
            accept: vec![KeyBinding::plain(KeyCode::Enter)],
            cancel: vec![KeyBinding::plain(KeyCode::Esc)],
        }
    }
}

pub open spec fn control_binding(ch: char) -> KeyBinding {
    KeyBinding {
        code: KeyCode::Char(ch),
        modifiers: KeyModifiers { control: true, ..no_modifiers() },
    }
}

/// Which set of key chords is in force.
#[derive(Clone, Copy, Debug, PartialEq, Eq, Structural)]
pub enum KeymapContext {
    Pager,
    Composer,
    List,
}

/// What the chord matcher makes of a key.
#[derive(Clone, Copy, Debug, PartialEq, Eq, Structural)]
pub enum KeyChordMatch {
    PassThrough,
    Completed(KeyEvent),
    Pending,
    Cancelled,
    Ignored,
}

} // verus!
