//! Keyboard input as plain values: key codes, modifier bits, key events and
//! the keybinds that keymaps are indexed by.
use vstd::prelude::*;

verus! {

/// A media key.
#[derive(Debug, Clone, Copy, PartialEq, Eq, Structural, Hash)]
pub enum MediaKeyCode {
    Play,
    Pause,
    PlayPause,
    Reverse,
    Stop,
    FastForward,
    Rewind,
    TrackNext,
    TrackPrevious,
    Record,
    LowerVolume,
    RaiseVolume,
    MuteVolume,
}

/// A modifier key pressed on its own.
#[derive(Debug, Clone, Copy, PartialEq, Eq, Structural, Hash)]
pub enum ModifierKeyCode {
    LeftShift,
    LeftControl,
    LeftAlt,
    LeftSuper,
    LeftHyper,
    LeftMeta,
    RightShift,
    RightControl,
    RightAlt,
    RightSuper,
    RightHyper,
    RightMeta,
    IsoLevel3Shift,
    IsoLevel5Shift,
}

/// The key of a key event.
#[derive(Debug, Clone, Copy, PartialEq, Eq, Structural, Hash)]
pub enum KeyCode {
    Backspace,
    Enter,
    Left,
    Right,
    Up,
    Down,
    Home,
    End,
    PageUp,
    PageDown,
    Tab,
    BackTab,
    Delete,
    Insert,
    F(u8),
    Char(char),
    Null,
    Esc,
    CapsLock,
    ScrollLock,
    NumLock,
    PrintScreen,
    Pause,
    Menu,
    KeypadBegin,
    Media(MediaKeyCode),
    Modifier(ModifierKeyCode),
}

/// The set of modifier keys held during a key event, as bits.
#[derive(Debug, Clone, Copy, PartialEq, Eq, Structural, Hash)]
pub struct KeyModifiers {
    pub bits: u8,
}

/// The bit of the shift modifier.
pub const SHIFT_BIT: u8 = 0b0000_0001;
/// The bit of the control modifier.
pub const CONTROL_BIT: u8 = 0b0000_0010;
/// The bit of the alt modifier.
pub const ALT_BIT: u8 = 0b0000_0100;
/// The bit of the super modifier.
pub const SUPER_BIT: u8 = 0b0000_1000;
/// The bit of the hyper modifier.
pub const HYPER_BIT: u8 = 0b0001_0000;
/// The bit of the meta modifier.
pub const META_BIT: u8 = 0b0010_0000;

impl KeyModifiers {
    /// No modifier held.
    pub fn empty() -> (m: KeyModifiers)
        ensures
            m.bits == 0,
    {
        KeyModifiers { bits: 0 }
    }
}

/// Whether a key was pressed, repeated or released.
#[derive(Debug, Clone, Copy, PartialEq, Eq, Structural, Hash)]
pub enum KeyEventKind {
    Press,
    Repeat,
    Release,
}

/// A key event read from the terminal.
#[derive(Debug, Clone, Copy, PartialEq, Eq, Structural, Hash)]
pub struct KeyEvent {
    pub code: KeyCode,
    pub modifiers: KeyModifiers,
    pub kind: KeyEventKind,
    /// Keyboard state bits (keypad, caps lock, num lock).
    pub state: u8,
}

impl KeyEvent {
    /// A key press of `code` with `modifiers` held.
    pub fn new(code: KeyCode, modifiers: KeyModifiers) -> (ev: KeyEvent)
        ensures
            ev == (KeyEvent { code, modifiers, kind: KeyEventKind::Press, state: 0 }),
    {
        KeyEvent { code, modifiers, kind: KeyEventKind::Press, state: 0 }
    }
}

/// A key with the modifiers that must be held for a binding to apply.
#[derive(Debug, Clone, Copy, PartialEq, Eq, Structural, Hash)]
pub struct Keybind {
    pub code: KeyCode,
    pub modifiers: KeyModifiers,
}

impl Keybind {
    /// A binding of `code` with no modifier.
    pub fn new_unmodified(code: KeyCode) -> (kb: Keybind)
        ensures
            kb == (Keybind { code, modifiers: KeyModifiers { bits: 0 } }),
    {
        Keybind { code, modifiers: KeyModifiers::empty() }
    }
}

/// The modifier bits `bits` with the shift bit cleared.
pub open spec fn without_shift(bits: u8) -> u8 {
    bits & !SHIFT_BIT
}

/// The keybind a key event is looked up by: its code and modifiers, except
/// that for a character key the shift modifier is dropped, since the
/// character itself already tells whether shift was held.
pub open spec fn keybind_of_event(ev: KeyEvent) -> Keybind {
    Keybind {
        code: ev.code,
        modifiers: if ev.code is Char {
            KeyModifiers { bits: without_shift(ev.modifiers.bits) }
        } else {
            ev.modifiers
        },
    }
}

/// The difference of two modifier sets, computed by crossterm:
/// `KeyModifiers::difference` clears in `bits` every bit set in `other`
/// (`bits & !other`), here with `other` the shift modifier.
#[verifier::external_body]
fn clear_shift_bit(bits: u8) -> (res: u8)
    ensures
        res == without_shift(bits),
{
    crossterm::event::KeyModifiers::from_bits_retain(bits).difference(
        crossterm::event::KeyModifiers::SHIFT,
    ).bits()
}

/// The keybind that `ev` is looked up by in a keymap.
pub fn keybind_for_event(ev: &KeyEvent) -> (kb: Keybind)
    ensures
        kb == keybind_of_event(*ev),
{
    let modifiers = match ev.code {
        KeyCode::Char(_) => KeyModifiers { bits: clear_shift_bit(ev.modifiers.bits) },
        _ => ev.modifiers,
    };
    Keybind { code: ev.code, modifiers }
}

/// Adding the shift modifier to a character key event does not change the
/// keybind it is looked up by.
pub proof fn lemma_shift_ignored_for_chars(ev: KeyEvent)
    requires
        ev.code is Char,
    ensures
        keybind_of_event(KeyEvent { modifiers: KeyModifiers { bits: ev.modifiers.bits | SHIFT_BIT }, ..ev })
            == keybind_of_event(ev),
{
    let b = ev.modifiers.bits;
    assert((b | 1u8) & !1u8 == b & !1u8) by (bit_vector);
}

/// A key event is looked up by its own code and every one of its modifier
/// bits, except that a character key drops the shift bit (bit 0) and
/// nothing else: control, alt and the others are kept.
pub proof fn law_lookup_drops_only_shift_on_chars(ev: KeyEvent)
    ensures
        keybind_of_event(ev).code == ev.code,
        ev.code is Char ==> keybind_of_event(ev).modifiers.bits == ev.modifiers.bits & 0xfeu8,
        !(ev.code is Char) ==> keybind_of_event(ev).modifiers.bits == ev.modifiers.bits,
        ev.code is Char ==> (keybind_of_event(ev).modifiers.bits | 1u8) == (ev.modifiers.bits | 1u8),
        ev.code is Char && ev.modifiers.bits & 1u8 == 0 ==> keybind_of_event(ev) == (Keybind {
            code: ev.code,
            modifiers: ev.modifiers,
        }),
{
    let b = ev.modifiers.bits;
    assert(b & !1u8 == b & 0xfeu8) by (bit_vector);
    assert((b & !1u8) | 1u8 == b | 1u8) by (bit_vector);
    assert(b & 1u8 == 0 ==> b & !1u8 == b) by (bit_vector);
}

/// Appends `c` to `s`: `String::push` of std.
#[verifier::external_body]
pub(crate) fn push_char(s: &mut String, c: char)
    ensures
        final(s)@ == old(s)@.push(c),
{
    s.push(c)
}

/// The character of the decimal digit `d`.
pub open spec fn digit_char(d: nat) -> char {
    (48 + d) as char
}

/// The decimal digits of `n`, most significant first, without leading
/// zeros.
pub open spec fn decimal_text(n: nat) -> Seq<char>
    decreases n,
{
    if n < 10 {
        seq![digit_char(n)]
    } else {
        decimal_text(n / 10) + seq![digit_char(n % 10)]
    }
}

/// The name shown for a key.
pub open spec fn code_text(code: KeyCode) -> Seq<char> {
    match code {
        KeyCode::Backspace => "Backspace"@,
        KeyCode::Enter => "Enter"@,
        KeyCode::Left => "Left"@,
        KeyCode::Right => "Right"@,
        KeyCode::Up => "Up"@,
        KeyCode::Down => "Down"@,
        KeyCode::Home => "Home"@,
        KeyCode::End => "End"@,
        KeyCode::PageUp => "PageUp"@,
        KeyCode::PageDown => "PageDown"@,
        KeyCode::Tab => "Tab"@,
        KeyCode::BackTab => "BackTab"@,
        KeyCode::Delete => "Delete"@,
        KeyCode::Insert => "Insert"@,
        KeyCode::F(n) => "F"@ + decimal_text(n as nat),
        KeyCode::Char(c) => if c == ' ' {
            "Space"@
        } else {
            seq![c]
        },
        KeyCode::Null => "Null"@,
        KeyCode::Esc => "Esc"@,
        KeyCode::CapsLock => "CapsLock"@,
        KeyCode::ScrollLock => "ScrollLock"@,
        KeyCode::NumLock => "NumLock"@,
        KeyCode::PrintScreen => "PrintScreen"@,
        KeyCode::Pause => "Pause"@,
        KeyCode::Menu => "Menu"@,
        KeyCode::KeypadBegin => "KeypadBegin"@,
        KeyCode::Media(_) => "Media"@,
        KeyCode::Modifier(_) => "Modifier"@,
    }
}

/// `prefix` when `bit` is set in `bits`, nothing otherwise.
pub open spec fn prefix_if_set(bits: u8, bit: u8, prefix: Seq<char>) -> Seq<char> {
    if bits & bit != 0 {
        prefix
    } else {
        Seq::empty()
    }
}

/// The prefixes shown for the modifiers held, in the order control, alt,
/// shift, super, hyper, meta.
pub open spec fn modifiers_text(bits: u8) -> Seq<char> {
    prefix_if_set(bits, CONTROL_BIT, "C-"@) + prefix_if_set(bits, ALT_BIT, "A-"@) + prefix_if_set(
        bits,
        SHIFT_BIT,
        "S-"@,
    ) + prefix_if_set(bits, SUPER_BIT, "Super-"@) + prefix_if_set(bits, HYPER_BIT, "Hyper-"@)
        + prefix_if_set(bits, META_BIT, "Meta-"@)
}

/// The text shown for a keybind: its modifier prefixes, then its key.
pub open spec fn keybind_text(kb: Keybind) -> Seq<char> {
    modifiers_text(kb.modifiers.bits) + code_text(kb.code)
}

/// The text of a keybind ends with the name of its key, preceded by one
/// prefix per modifier held: none for no modifier, `C-` for control, `A-`
/// for alt, `S-` for shift, and `C-` before `S-` when both are held. A
/// character key is shown as the character itself, but space as `Space`.
pub proof fn law_keybind_text(kb: Keybind)
    ensures
        keybind_text(kb).len() >= code_text(kb.code).len(),
        keybind_text(kb).subrange(
            keybind_text(kb).len() - code_text(kb.code).len(),
            keybind_text(kb).len() as int,
        ) == code_text(kb.code),
        kb.modifiers.bits == 0 ==> keybind_text(kb) == code_text(kb.code),
        kb.modifiers.bits == 2 ==> keybind_text(kb) == "C-"@ + code_text(kb.code),
        kb.modifiers.bits == 4 ==> keybind_text(kb) == "A-"@ + code_text(kb.code),
        kb.modifiers.bits == 1 ==> keybind_text(kb) == "S-"@ + code_text(kb.code),
        kb.modifiers.bits == 3 ==> keybind_text(kb) == "C-"@ + "S-"@ + code_text(kb.code),
        kb.code is Char && kb.code->Char_0 != ' ' ==> code_text(kb.code) == seq![kb.code->Char_0],
        kb.code == KeyCode::Char(' ') ==> code_text(kb.code) == "Space"@,
{
    let b = kb.modifiers.bits;
    let m = modifiers_text(b);
    let t = keybind_text(kb);
    assert(t.subrange(m.len() as int, t.len() as int) =~= code_text(kb.code));
    assert(b == 0u8 ==> b & 1u8 == 0 && b & 2u8 == 0 && b & 4u8 == 0 && b & 8u8 == 0 && b & 16u8
        == 0 && b & 32u8 == 0) by (bit_vector);
    assert(b == 2u8 ==> b & 1u8 == 0 && b & 2u8 != 0 && b & 4u8 == 0 && b & 8u8 == 0 && b & 16u8
        == 0 && b & 32u8 == 0) by (bit_vector);
    assert(b == 4u8 ==> b & 1u8 == 0 && b & 2u8 == 0 && b & 4u8 != 0 && b & 8u8 == 0 && b & 16u8
        == 0 && b & 32u8 == 0) by (bit_vector);
    assert(b == 1u8 ==> b & 1u8 != 0 && b & 2u8 == 0 && b & 4u8 == 0 && b & 8u8 == 0 && b & 16u8
        == 0 && b & 32u8 == 0) by (bit_vector);
    assert(b == 3u8 ==> b & 1u8 != 0 && b & 2u8 != 0 && b & 4u8 == 0 && b & 8u8 == 0 && b & 16u8
        == 0 && b & 32u8 == 0) by (bit_vector);
    let e = Seq::<char>::empty();
    if b == 0 {
        assert(m =~= e);
        assert(t =~= code_text(kb.code));
    } else if b == 2 {
        assert(m =~= "C-"@);
    } else if b == 4 {
        assert(m =~= "A-"@);
    } else if b == 1 {
        assert(m =~= "S-"@);
    } else if b == 3 {
        assert(m =~= "C-"@ + "S-"@);
        assert(t =~= "C-"@ + "S-"@ + code_text(kb.code));
    }
}

/// Appends the decimal digits of `n` to `s`.
fn push_decimal(s: &mut String, n: u8)
    ensures
        final(s)@ == old(s)@ + decimal_text(n as nat),
{
    proof {
        reveal_with_fuel(decimal_text, 3);
    }
    if n >= 100 {
        push_char(s, ((48 + n / 100) as u8) as char);
    }
    if n >= 10 {
        push_char(s, ((48 + (n / 10) % 10) as u8) as char);
    }
    push_char(s, ((48 + n % 10) as u8) as char);
    proof {
        if n >= 100 {
            assert(decimal_text(n as nat) =~= seq![digit_char((n / 100) as nat), digit_char(((n / 10) % 10) as nat), digit_char((n % 10) as nat)]);
        } else if n >= 10 {
            assert(decimal_text(n as nat) =~= seq![digit_char((n / 10) as nat), digit_char((n % 10) as nat)]);
        }
        assert(final(s)@ =~= old(s)@ + decimal_text(n as nat));
    }
}

/// Appends `prefix` to `s` when `bit` is set in `bits`.
fn push_prefix_if_set(s: &mut String, bits: u8, bit: u8, prefix: &str)
    ensures
        final(s)@ == old(s)@ + prefix_if_set(bits, bit, prefix@),
{
    if bits & bit != 0 {
        s.append(prefix);
    } else {
        assert(old(s)@ + Seq::<char>::empty() =~= old(s)@);
    }
}

/// The name shown for a key.
fn code_string(code: KeyCode) -> (r: String)
    ensures
        r@ == code_text(code),
{
    match code {
        KeyCode::Backspace => String::from_str("Backspace"),
        KeyCode::Enter => String::from_str("Enter"),
        KeyCode::Left => String::from_str("Left"),
        KeyCode::Right => String::from_str("Right"),
        KeyCode::Up => String::from_str("Up"),
        KeyCode::Down => String::from_str("Down"),
        KeyCode::Home => String::from_str("Home"),
        KeyCode::End => String::from_str("End"),
        KeyCode::PageUp => String::from_str("PageUp"),
        KeyCode::PageDown => String::from_str("PageDown"),
        KeyCode::Tab => String::from_str("Tab"),
        KeyCode::BackTab => String::from_str("BackTab"),
        KeyCode::Delete => String::from_str("Delete"),
        KeyCode::Insert => String::from_str("Insert"),
        KeyCode::F(n) => {
            let mut s = String::from_str("F");
            push_decimal(&mut s, n);
            s
        },
        KeyCode::Char(c) => {
            if c == ' ' {
                String::from_str("Space")
            } else {
                let mut s = String::new();
                push_char(&mut s, c);
                proof {
                    assert(s@ =~= seq![c]);
                }
                s
            }
        },
        KeyCode::Null => String::from_str("Null"),
        KeyCode::Esc => String::from_str("Esc"),
        KeyCode::CapsLock => String::from_str("CapsLock"),
        KeyCode::ScrollLock => String::from_str("ScrollLock"),
        KeyCode::NumLock => String::from_str("NumLock"),
        KeyCode::PrintScreen => String::from_str("PrintScreen"),
        KeyCode::Pause => String::from_str("Pause"),
        KeyCode::Menu => String::from_str("Menu"),
        KeyCode::KeypadBegin => String::from_str("KeypadBegin"),
        KeyCode::Media(_) => String::from_str("Media"),
        KeyCode::Modifier(_) => String::from_str("Modifier"),
    }
}

impl Keybind {
    /// The text shown for this keybind: for example `C-a`, `F10` or `Enter`.
    pub fn to_string(&self) -> (r: String)
        ensures
            r@ == keybind_text(*self),
    {
        let bits = self.modifiers.bits;
        let mut s = String::new();
        push_prefix_if_set(&mut s, bits, CONTROL_BIT, "C-");
        push_prefix_if_set(&mut s, bits, ALT_BIT, "A-");
        push_prefix_if_set(&mut s, bits, SHIFT_BIT, "S-");
        push_prefix_if_set(&mut s, bits, SUPER_BIT, "Super-");
        push_prefix_if_set(&mut s, bits, HYPER_BIT, "Hyper-");
        push_prefix_if_set(&mut s, bits, META_BIT, "Meta-");
        let code = code_string(self.code);
        s.append(code.as_str());
        proof {
            assert(s@ =~= keybind_text(*self));
        }
        s
    }
}

} // verus!
