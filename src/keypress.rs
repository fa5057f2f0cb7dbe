use vstd::prelude::*;
use crate::action::Action;
use crate::input::{Input, insert_char};
use crate::text::{chars_of, has_prefix_at, rest_equals, string_of};
use vstd::string::*;

verus! {

/// The keys this application tells apart; every other key is `Other`.
#[derive(Clone, Copy, Debug, PartialEq, Eq, Structural)]
pub enum KeyCode {
    Backspace,
    Enter,
    Left,
    Right,
    Up,
    Down,
    Tab,
    Delete,
    Esc,
    Char(char),
    Other,
}

/// Modifier keys held with a key.
#[derive(Clone, Copy, Debug, PartialEq, Eq, Structural)]
pub struct KeyModifiers {
    pub shift: bool,
    pub control: bool,
    pub alt: bool,
    pub super_key: bool,
    pub hyper: bool,
    pub meta: bool,
}

#[derive(Clone, Copy, Debug, PartialEq, Eq, Structural)]
pub enum KeyEventKind {
    Press,
    Repeat,
    Release,
}

/// A key event as the terminal reports it; `state` holds the terminal's
/// extra state flags (keypad, caps lock, ...) as raw bits.
#[derive(Clone, Copy, Debug, PartialEq, Eq, Structural)]
pub struct KeyEvent {
    pub code: KeyCode,
    pub modifiers: KeyModifiers,
    pub kind: KeyEventKind,
    pub state: u8,
}

/// A terminal event: a key, or anything else (mouse, resize, focus, paste).
#[derive(Clone, Copy, Debug, PartialEq, Eq, Structural)]
pub enum Event {
    Key(KeyEvent),
    Other,
}

pub open spec fn no_modifiers() -> KeyModifiers {
    KeyModifiers {
        shift: false,
        control: false,
        alt: false,
        super_key: false,
        hyper: false,
        meta: false,
    }
}

pub open spec fn is_ascii_upper(c: char) -> bool {
    'A' <= c && c <= 'Z'
}

pub open spec fn is_ascii_lower(c: char) -> bool {
    'a' <= c && c <= 'z'
}

/// ASCII lowercase of a character; other characters stay as they are.
pub open spec fn ascii_lower(c: char) -> char {
    if is_ascii_upper(c) {
        ((c as u8) + 32) as char
    } else {
        c
    }
}

pub open spec fn ascii_upper(c: char) -> char {
    if is_ascii_lower(c) {
        ((c as u8) - 32) as char
    } else {
        c
    }
}

pub open spec fn lowered(s: Seq<char>) -> Seq<char> {
    s.map_values(|c: char| ascii_lower(c))
}

/// The rest of `s` after the prefix `p`, if `s` starts with it.
pub open spec fn strip_prefix(s: Seq<char>, p: Seq<char>) -> Option<Seq<char>> {
    if p.len() <= s.len() && s.subrange(0, p.len() as int) == p {
        Some(s.subrange(p.len() as int, s.len() as int))
    } else {
        None
    }
}

/// Splits an optional `ctrl+` and then an optional `shift+` off a chord.
pub open spec fn split_modifiers(s: Seq<char>) -> (Seq<char>, KeyModifiers) {
    let (after_ctrl, control) = match strip_prefix(s, "ctrl+"@) {
        Some(r) => (r, true),
        None => (s, false),
    };
    let (rest, shift) = match strip_prefix(after_ctrl, "shift+"@) {
        Some(r) => (r, true),
        None => (after_ctrl, false),
    };
    (rest, KeyModifiers { shift, control, ..no_modifiers() })
}

/// The key a (lowercase) key name denotes.
pub open spec fn key_code_of(s: Seq<char>) -> Option<KeyCode> {
    if s == "esc"@ || s == "escape"@ {
        Some(KeyCode::Esc)
    } else if s == "enter"@ || s == "return"@ {
        Some(KeyCode::Enter)
    } else if s == "tab"@ {
        Some(KeyCode::Tab)
    } else if s == "backspace"@ {
        Some(KeyCode::Backspace)
    } else if s == "up"@ {
        Some(KeyCode::Up)
    } else if s == "down"@ {
        Some(KeyCode::Down)
    } else if s == "left"@ {
        Some(KeyCode::Left)
    } else if s == "right"@ {
        Some(KeyCode::Right)
    } else if s.len() == 1 {
        Some(KeyCode::Char(s[0]))
    } else {
        None
    }
}

pub open spec fn press(code: KeyCode, modifiers: KeyModifiers) -> KeyEvent {
    KeyEvent { code, modifiers, kind: KeyEventKind::Press, state: 0 }
}

/// The key event a textual chord denotes, read without regard to ASCII case.
pub open spec fn chord_event(raw: Seq<char>) -> Option<KeyEvent> {
    let (rest, modifiers) = split_modifiers(lowered(raw));
    match key_code_of(rest) {
        Some(code) => Some(press(code, modifiers)),
        None => None,
    }
}

/// The key name left once the modifiers are split off.
pub open spec fn chord_key_name(raw: Seq<char>) -> Seq<char> {
    split_modifiers(lowered(raw)).0
}

/// How two key events are compared: an uppercase ASCII letter implies
/// shift, and shift with a letter means its uppercase form.
pub open spec fn normalize_case(e: KeyEvent) -> KeyEvent {
    match e.code {
        KeyCode::Char(c) => if is_ascii_upper(c) {
            KeyEvent { modifiers: KeyModifiers { shift: true, ..e.modifiers }, ..e }
        } else if e.modifiers.shift {
            KeyEvent { code: KeyCode::Char(ascii_upper(c)), ..e }
        } else {
            e
        },
        _ => e,
    }
}

/// Two chords that differ only in ASCII case denote the same key event.
pub proof fn lemma_chord_ignores_case(a: Seq<char>, b: Seq<char>)
    requires
        lowered(a) == lowered(b),
    ensures
        chord_event(a) == chord_event(b),
{
}

fn lower_char(c: char) -> (r: char)
    ensures
        r == ascii_lower(c),
{
    if 'A' <= c && c <= 'Z' {
        ((c as u8) + 32) as char
    } else {
        c
    }
}

fn upper_char(c: char) -> (r: char)
    ensures
        r == ascii_upper(c),
{
    if 'a' <= c && c <= 'z' {
        ((c as u8) - 32) as char
    } else {
        c
    }
}

impl KeyModifiers {
    pub fn empty() -> (r: KeyModifiers)
        ensures
            r == no_modifiers(),
    {
        KeyModifiers {
            shift: false,
            control: false,
            alt: false,
            super_key: false,
            hyper: false,
            meta: false,
        }
    }
}

impl KeyEvent {
    /// A press of `code` with `modifiers` and no extra state.
    pub fn new(code: KeyCode, modifiers: KeyModifiers) -> (r: KeyEvent)
        ensures
            r == press(code, modifiers),
    {
        KeyEvent { code, modifiers, kind: KeyEventKind::Press, state: 0 }
    }

    pub fn normalize_case(&self) -> (r: KeyEvent)
        ensures
            r == normalize_case(*self),
    {
        match self.code {
            KeyCode::Char(c) => {
                if 'A' <= c && c <= 'Z' {
                    let mut m = self.modifiers;
                    m.shift = true;
                    KeyEvent { modifiers: m, ..*self }
                } else if self.modifiers.shift {
                    KeyEvent { code: KeyCode::Char(upper_char(c)), ..*self }
                } else {
                    *self
                }
            },
            _ => *self,
        }
    }
}

/// Splits an optional `ctrl+` and then `shift+` off `raw[from..]`; returns
/// where the key name starts and the modifiers found.
fn extract_modifiers(raw: &Vec<char>) -> (r: (usize, KeyModifiers))
    ensures
        r.0 <= raw@.len(),
        raw@.subrange(r.0 as int, raw@.len() as int) == split_modifiers(raw@).0,
        r.1 == split_modifiers(raw@).1,
{
    let mut modifiers = KeyModifiers::empty();
    let mut remaining: usize = 0;
    if has_prefix_at(raw, 0, "ctrl+") {
        modifiers.control = true;
        remaining = 5;
        proof { reveal_strlit("ctrl+"); }
    }
    assert(raw@.subrange(remaining as int, raw@.len() as int) == (match strip_prefix(
        raw@,
        "ctrl+"@,
    ) {
        Some(r) => r,
        None => raw@,
    }));
    if has_prefix_at(raw, remaining, "shift+") {
        modifiers.shift = true;
        proof {
            reveal_strlit("shift+");
            let after = raw@.subrange(remaining as int, raw@.len() as int);
            assert(after.subrange(0, 6) =~= raw@.subrange(remaining as int, remaining + 6));
            assert(after.subrange(6, after.len() as int) =~= raw@.subrange(
                remaining + 6,
                raw@.len() as int,
            ));
        }
        remaining = remaining + 6;
    } else {
        proof {
            reveal_strlit("shift+");
            let after = raw@.subrange(remaining as int, raw@.len() as int);
            if 6 <= after.len() {
                assert(after.subrange(0, 6) =~= raw@.subrange(remaining as int, remaining + 6));
            }
        }
    }
    (remaining, modifiers)
}

/// Reads the key name `raw[from..]` with the given modifiers.
fn parse_key_code_with_modifiers(raw: &Vec<char>, from: usize, modifiers: KeyModifiers) -> (r:
    Result<KeyEvent, String>)
    requires
        from <= raw@.len(),
    ensures
        match key_code_of(raw@.subrange(from as int, raw@.len() as int)) {
            Some(code) => r == Ok::<KeyEvent, String>(press(code, modifiers)),
            None => r is Err && r->Err_0@ == "Unknown key: "@ + raw@.subrange(
                from as int,
                raw@.len() as int,
            ),
        },
{
    let ghost name = raw@.subrange(from as int, raw@.len() as int);
    let code = if rest_equals(raw, from, "esc") || rest_equals(raw, from, "escape") {
        KeyCode::Esc
    } else if rest_equals(raw, from, "enter") || rest_equals(raw, from, "return") {
        KeyCode::Enter
    } else if rest_equals(raw, from, "tab") {
        KeyCode::Tab
    } else if rest_equals(raw, from, "backspace") {
        KeyCode::Backspace
    } else if rest_equals(raw, from, "up") {
        KeyCode::Up
    } else if rest_equals(raw, from, "down") {
        KeyCode::Down
    } else if rest_equals(raw, from, "left") {
        KeyCode::Left
    } else if rest_equals(raw, from, "right") {
        KeyCode::Right
    } else if raw.len() - from == 1 {
        KeyCode::Char(raw[from])
    } else {
        let name_text = string_of(raw, from, raw.len());
        let message = String::from_str("Unknown key: ").concat(name_text.as_str());
        return Err(message);
    };
    Ok(KeyEvent::new(code, modifiers))
}

/// Reads a textual chord `[ctrl+][shift+]<key>`, ignoring ASCII case.
pub fn parse_key_event(raw: &str) -> (r: Result<KeyEvent, String>)
    ensures
        match chord_event(raw@) {
            Some(e) => r == Ok::<KeyEvent, String>(e),
            None => r is Err && r->Err_0@ == "Unknown key: "@ + chord_key_name(raw@),
        },
{
    let chars = chars_of(raw);
    let mut lower: Vec<char> = Vec::new();
    let mut i: usize = 0;
    while i < chars.len()
        invariant
            i <= chars@.len(),
            chars@ == raw@,
            lower@ == lowered(raw@).subrange(0, i as int),
        decreases chars@.len() - i,
    {
        lower.push(lower_char(chars[i]));
        i = i + 1;
        assert(lower@ =~= lowered(raw@).subrange(0, i as int));
    }
    assert(lower@ =~= lowered(raw@));
    let (from, modifiers) = extract_modifiers(&lower);
    parse_key_code_with_modifiers(&lower, from, modifiers)
}

/// The action bound last to a (case-normalized) key event.
pub open spec fn lookup(entries: Seq<(KeyEvent, Action)>, key: KeyEvent) -> Option<Action>
    decreases entries.len(),
{
    if entries.len() == 0 {
        None
    } else if entries.last().0 == key {
        Some(entries.last().1)
    } else {
        lookup(entries.drop_last(), key)
    }
}

/// Key bindings: chords mapped to actions; a later binding of the same chord
/// replaces an earlier one.
pub struct KeyMap {
    entries: Vec<(KeyEvent, Action)>,
}

impl KeyMap {
    pub closed spec fn entries(&self) -> Seq<(KeyEvent, Action)> {
        self.entries@
    }

    /// The action bound to `key`, compared as terminal key events compare.
    pub open spec fn binding(&self, key: KeyEvent) -> Option<Action> {
        lookup(self.entries(), normalize_case(key))
    }

    pub fn new() -> (r: KeyMap)
        ensures
            forall|k: KeyEvent| r.binding(k) is None,
    {
        KeyMap { entries: Vec::new() }
    }

    /// Binds `key` to `action`.
    pub fn insert(&mut self, key: KeyEvent, action: Action)
        ensures
            final(self).binding(key) == Some(action),
            forall|k: KeyEvent|
                normalize_case(k) != normalize_case(key) ==> final(self).binding(k) == old(self).binding(k),
    {
        let k = key.normalize_case();
        self.entries.push((k, action));
        assert(self.entries@.drop_last() =~= old(self).entries@);
    }

    pub fn get(&self, key: &KeyEvent) -> (r: Option<Action>)
        ensures
            r == self.binding(*key),
    {
        let k = key.normalize_case();
        let mut i: usize = self.entries.len();
        assert(self.entries@.subrange(0, i as int) =~= self.entries@);
        while i > 0
            invariant
                i <= self.entries@.len(),
                k == normalize_case(*key),
                lookup(self.entries@, k) == lookup(self.entries@.subrange(0, i as int), k),
            decreases i,
        {
            let ghost s = self.entries@.subrange(0, i as int);
            assert(s.drop_last() =~= self.entries@.subrange(0, i - 1));
            assert(s.last() == self.entries@[i - 1]);
            if self.entries[i - 1].0 == k {
                assert(lookup(s, k) == Some(s.last().1));
                return Some(self.entries[i - 1].1);
            }
            i = i - 1;
        }
        None
    }
}

impl Default for KeyMap {
    fn default() -> (r: KeyMap)
        ensures
            forall|k: KeyEvent| r.binding(k) is None,
    {
        KeyMap::new()
    }
}

/// The key bindings read from the configuration file.
pub struct Config {
    pub keymap: KeyMap,
}

/// The action a terminal event resolves to under a configuration.
pub open spec fn resolved_action(config: &Config, event: Event) -> Action {
    match event {
        Event::Key(e) => if e.kind == KeyEventKind::Release {
            Action::NoOp
        } else if config.keymap.binding(e) is Some {
            config.keymap.binding(e)->Some_0
        } else {
            match e.code {
                KeyCode::Char(_) => Action::Filter,
                KeyCode::Backspace => Action::Filter,
                _ => Action::NoOp,
            }
        },
        Event::Other => Action::NoOp,
    }
}

/// How resolving `event` changes the query line: a released or bound key
/// leaves it; an unbound character is typed at the cursor; an unbound
/// backspace deletes before it; anything else leaves it.
pub open spec fn keyed_input(config: &Config, before: Input, after: Input, event: Event) -> bool {
    match event {
        Event::Key(e) => if e.kind == KeyEventKind::Release || config.keymap.binding(e) is Some {
            after.same_as(before)
        } else {
            after.error_message@ == before.error_message@ && match e.code {
                KeyCode::Char(c) => after.text@ == insert_char(
                    before.text@,
                    before.char_index as int,
                    c,
                ) && after.char_index == before.char_index + 1,
                KeyCode::Backspace => if before.char_index == 0 {
                    after.text@ == before.text@ && after.char_index == 0
                } else {
                    after.text@ == before.text@.remove(before.char_index - 1) && after.char_index
                        == before.char_index - 1
                },
                _ => after.same_as(before),
            }
        },
        Event::Other => after.same_as(before),
    }
}

/// What an unbound key does: a character is typed into the query, backspace
/// deletes before the cursor; both then ask to refilter.
pub fn handle_keypress(input: &mut Input, key_event: Event) -> (r: Action)
    requires
        old(input).wf(),
        old(input).text@.len() < usize::MAX,
    ensures
        final(input).wf(),
        final(input).error_message@ == old(input).error_message@,
        match key_event {
            Event::Key(e) => match e.code {
                KeyCode::Char(c) => r == Action::Filter && final(input).text@ == insert_char(
                    old(input).text@,
                    old(input).char_index as int,
                    c,
                ) && final(input).char_index == old(input).char_index + 1,
                KeyCode::Backspace => r == Action::Filter && (if old(input).char_index == 0 {
                    final(input).text@ == old(input).text@ && final(input).char_index == 0
                } else {
                    final(input).text@ == old(input).text@.remove(old(input).char_index - 1)
                        && final(input).char_index == old(input).char_index - 1
                }),
                _ => r == Action::NoOp && final(input).text@ == old(input).text@
                    && final(input).char_index == old(input).char_index,
            },
            Event::Other => r == Action::NoOp && final(input).text@ == old(input).text@
                && final(input).char_index == old(input).char_index,
        },
{
    match key_event {
        Event::Key(event) => match event.code {
            KeyCode::Char(incoming_char) => {
                input.update_input(incoming_char);
                Action::Filter
            },
            KeyCode::Backspace => {
                input.delete_char();
                Action::Filter
            },
            _ => Action::NoOp,
        },
        _ => Action::NoOp,
    }
}

/// Resolves a terminal event: a key release does nothing, a bound chord
/// gives its action, anything else goes to `handle_keypress`.
pub fn handle_keypress_with_config(input: &mut Input, key_event: Event, config: &Config) -> (r:
    Action)
    requires
        old(input).wf(),
        old(input).text@.len() < usize::MAX,
    ensures
        final(input).wf(),
        r == resolved_action(config, key_event),
        keyed_input(config, *old(input), *final(input), key_event),
{
    if let Event::Key(event) = key_event {
        if event.kind == KeyEventKind::Release {
            return Action::NoOp;
        }
        if let Some(action) = config.keymap.get(&event) {
            return action;
        }
    }
    handle_keypress(input, key_event)
}

} // verus!
