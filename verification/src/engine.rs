//! The typing engine's decisions: how a character maps to keystrokes.
//!
//! Two ways to inject a printable character: **Unicode** injection, which
//! works for any character in local apps, and **physical keys**, which press
//! the base key by scancode plus the `Shift`/`Ctrl`/`Alt` modifiers a human
//! would use, as remote consoles expect. Characters that no single physical
//! key reaches fall back to Unicode.
use vstd::prelude::*;

verus! {

/// How an input character maps to a keystroke.
#[derive(Debug, Clone, Copy, PartialEq, Eq, Structural)]
pub enum CharAction {
    /// A printable character.
    Char(char),
    Enter,
    Tab,
    Backspace,
    /// Ignored (e.g. carriage return in CRLF line endings).
    Skip,
}

/// The keystroke a character stands for: newline and tab are their keys,
/// carriage return is dropped, backspace and delete are Backspace, and
/// everything else is typed as itself.
pub open spec fn action_of(c: char) -> CharAction {
    if c == '\n' {
        CharAction::Enter
    } else if c == '\t' {
        CharAction::Tab
    } else if c == '\r' {
        CharAction::Skip
    } else if c == '\u{8}' || c == '\u{7f}' {
        CharAction::Backspace
    } else {
        CharAction::Char(c)
    }
}

/// Maps an input character to the keystroke that types it.
pub fn classify(c: char) -> (a: CharAction)
    ensures
        a == action_of(c),
{
    if c == '\n' {
        CharAction::Enter
    } else if c == '\t' {
        CharAction::Tab
    } else if c == '\r' {
        CharAction::Skip
    } else if c == '\u{8}' || c == '\u{7f}' {
        CharAction::Backspace
    } else {
        CharAction::Char(c)
    }
}

/// A key the backend presses by name.
#[derive(Debug, Clone, Copy, PartialEq, Eq, Structural)]
pub enum NamedKey {
    Return,
    Tab,
    Backspace,
}

/// What the backend has to do for one character.
#[derive(Debug, Clone, Copy, PartialEq, Eq, Structural)]
pub enum Keystroke {
    /// Nothing is sent.
    Nothing,
    /// Click a named key.
    Tap(NamedKey),
    /// Press the physical key (with modifiers) that types the character,
    /// falling back to Unicode where no single key reaches it.
    Physical(char),
    /// Inject the character as Unicode.
    Unicode(char),
}

pub open spec fn keystroke_of(c: char, physical_keys: bool) -> Keystroke {
    match action_of(c) {
        CharAction::Skip => Keystroke::Nothing,
        CharAction::Enter => Keystroke::Tap(NamedKey::Return),
        CharAction::Tab => Keystroke::Tap(NamedKey::Tab),
        CharAction::Backspace => Keystroke::Tap(NamedKey::Backspace),
        CharAction::Char(ch) => if physical_keys {
            Keystroke::Physical(ch)
        } else {
            Keystroke::Unicode(ch)
        },
    }
}

/// The keystroke that sends `c`, in physical-key or Unicode mode.
pub fn plan_keystroke(c: char, physical_keys: bool) -> (k: Keystroke)
    ensures
        k == keystroke_of(c, physical_keys),
        c == '\n' ==> k == Keystroke::Tap(NamedKey::Return),
        c == '\t' ==> k == Keystroke::Tap(NamedKey::Tab),
        (c == '\u{8}' || c == '\u{7f}') ==> k == Keystroke::Tap(NamedKey::Backspace),
        c == '\r' ==> k == Keystroke::Nothing,
{
    match classify(c) {
        CharAction::Skip => Keystroke::Nothing,
        CharAction::Enter => Keystroke::Tap(NamedKey::Return),
        CharAction::Tab => Keystroke::Tap(NamedKey::Tab),
        CharAction::Backspace => Keystroke::Tap(NamedKey::Backspace),
        CharAction::Char(ch) => if physical_keys {
            Keystroke::Physical(ch)
        } else {
            Keystroke::Unicode(ch)
        },
    }
}

/// Only printable characters depend on the mode: in either mode a newline
/// is a tap of Return, a tab a tap of Tab, backspace and delete a tap of
/// Backspace, and a carriage return sends nothing; every other character
/// goes by its physical key in physical-key mode and as Unicode otherwise.
pub proof fn lemma_keystroke_by_mode(c: char, physical_keys: bool)
    ensures
        c == '\n' ==> keystroke_of(c, physical_keys) == Keystroke::Tap(NamedKey::Return),
        c == '\t' ==> keystroke_of(c, physical_keys) == Keystroke::Tap(NamedKey::Tab),
        (c == '\u{8}' || c == '\u{7f}') ==> keystroke_of(c, physical_keys) == Keystroke::Tap(
            NamedKey::Backspace,
        ),
        c == '\r' ==> keystroke_of(c, physical_keys) == Keystroke::Nothing,
        (c == '\n' || c == '\t' || c == '\r' || c == '\u{8}' || c == '\u{7f}') ==> keystroke_of(
            c,
            true,
        ) == keystroke_of(c, false),
        !(c == '\n' || c == '\t' || c == '\r' || c == '\u{8}' || c == '\u{7f}') ==> {
            &&& keystroke_of(c, true) == Keystroke::Physical(c)
            &&& keystroke_of(c, false) == Keystroke::Unicode(c)
        },
{
}

/// Errors raised while injecting keystrokes.
#[derive(Debug)]
pub enum TypeError {
    /// Could not create the keyboard backend (e.g. missing macOS
    /// Accessibility permission, or unsupported Wayland session).
    Init(String),
    /// A keystroke failed to send.
    Inject(String),
}

pub open spec fn init_message(e: Seq<char>) -> Seq<char> {
    "Could not start keyboard input ("@ + e
        + ").\nOn macOS: enable Accessibility for this app under System Settings → Privacy & Security → Accessibility.\nOn Linux: an X11 session is required (Wayland is restricted)."@
}

pub open spec fn inject_message(e: Seq<char>) -> Seq<char> {
    "Keyboard injection failed: "@ + e
}

impl TypeError {
    /// The message shown to the user.
    pub fn message(&self) -> (m: String)
        ensures
            m@ == match self {
                TypeError::Init(e) => init_message(e@),
                TypeError::Inject(e) => inject_message(e@),
            },
    {
        let mut m = String::new();
        match self {
            TypeError::Init(e) => {
                m.append("Could not start keyboard input (");
                m.append(e.as_str());
                m.append(
                    ").\nOn macOS: enable Accessibility for this app under System Settings → Privacy & Security → Accessibility.\nOn Linux: an X11 session is required (Wayland is restricted).",
                );
            },
            TypeError::Inject(e) => {
                m.append("Keyboard injection failed: ");
                m.append(e.as_str());
            },
        }
        m
    }
}

/// The UTF-16 code unit of a character in the Basic Multilingual Plane;
/// characters beyond it have no single virtual key.
pub fn bmp_code_unit(ch: char) -> (r: Option<u16>)
    ensures
        r matches Some(u) ==> ch as u32 <= 0xFFFF && u as u32 == ch as u32,
        r is None ==> ch as u32 > 0xFFFF,
{
    let n = ch as u32;
    if n > 0xFFFF {
        None
    } else {
        Some(n as u16)
    }
}

/// A virtual key and the shift state a layout needs for a character: the
/// low and high bytes of what `VkKeyScanExW` returns.
#[derive(Debug, Clone, Copy, PartialEq, Eq, Structural)]
pub struct VkScan {
    pub vk: u16,
    pub shift_state: u16,
}

/// The unsigned 16-bit pattern of a `SHORT`.
pub open spec fn bits16(x: i16) -> int {
    if x < 0 {
        x + 65536
    } else {
        x as int
    }
}

/// Splits a `VkKeyScanExW` result; `-1` means the layout has no key for
/// the character.
pub fn split_vk_scan(vk_scan: i16) -> (r: Option<VkScan>)
    ensures
        vk_scan == -1 ==> r is None,
        vk_scan != -1 ==> (r matches Some(s) && s.vk == bits16(vk_scan) % 256 && s.shift_state
            == bits16(vk_scan) / 256),
{
    if vk_scan == -1 {
        return None;
    }
    #[verifier::truncate]
    let u = vk_scan as u16;
    assert(vk_scan < 0 ==> u == vk_scan + 65536) by (bit_vector)
        requires
            u == vk_scan as u16,
    ;
    assert(vk_scan >= 0 ==> u == vk_scan) by (bit_vector)
        requires
            u == vk_scan as u16,
    ;
    let vk = u & 0x00FF;
    let shift_state = (u >> 8) & 0xFF;
    assert(u & 0x00FF == u % 256) by (bit_vector);
    assert((u >> 8) & 0xFF == u / 256) by (bit_vector);
    Some(VkScan { vk, shift_state })
}

/// A resolved physical-key plan for a character on the active layout.
#[derive(Debug, Clone, Copy, PartialEq, Eq, Structural)]
pub struct KeyPlan {
    pub scancode: u16,
    pub shift: bool,
    pub ctrl: bool,
    pub alt: bool,
}

/// The plan for a base key whose scancode `MapVirtualKeyExW` gave (only its
/// low 16 bits count) and a shift state: bit 0 is Shift, bit 1 Ctrl, bit 2
/// Alt. A zero scancode means the key cannot be sent.
pub fn key_plan(scancode: u32, shift_state: u16) -> (r: Option<KeyPlan>)
    ensures
        scancode % 65536 == 0 ==> r is None,
        scancode % 65536 != 0 ==> (r matches Some(p) && p.scancode == scancode % 65536 && p.shift
            == (shift_state % 2 == 1) && p.ctrl == ((shift_state / 2) % 2 == 1) && p.alt == ((
        shift_state / 4) % 2 == 1)),
{
    #[verifier::truncate]
    let sc = scancode as u16;
    assert(sc == scancode % 65536) by (bit_vector)
        requires
            sc == scancode as u16,
    ;
    if sc == 0 {
        return None;
    }
    let shift = shift_state & 1 != 0;
    let ctrl = shift_state & 2 != 0;
    let alt = shift_state & 4 != 0;
    assert((shift_state & 1 != 0) == (shift_state % 2 == 1)) by (bit_vector);
    assert((shift_state & 2 != 0) == ((shift_state / 2) % 2 == 1)) by (bit_vector);
    assert((shift_state & 4 != 0) == ((shift_state / 4) % 2 == 1)) by (bit_vector);
    Some(KeyPlan { scancode: sc, shift, ctrl, alt })
}

/// A modifier key held around a physical key press.
#[derive(Debug, Clone, Copy, PartialEq, Eq, Structural)]
pub enum Modifier {
    Shift,
    Control,
    Alt,
}

/// One step of a physical key press.
#[derive(Debug, Clone, Copy, PartialEq, Eq, Structural)]
pub enum KeyEvent {
    Press(Modifier),
    Release(Modifier),
    /// Click the base key by scancode.
    Click(u16),
}

/// The modifiers a plan needs, in the order they are pressed.
pub open spec fn plan_modifiers(p: KeyPlan) -> Seq<Modifier> {
    (if p.shift {
        seq![Modifier::Shift]
    } else {
        Seq::empty()
    }) + (if p.ctrl {
        seq![Modifier::Control]
    } else {
        Seq::empty()
    }) + (if p.alt {
        seq![Modifier::Alt]
    } else {
        Seq::empty()
    })
}

/// Whether a plan needs a modifier held.
pub open spec fn needs(p: KeyPlan, m: Modifier) -> bool {
    match m {
        Modifier::Shift => p.shift,
        Modifier::Control => p.ctrl,
        Modifier::Alt => p.alt,
    }
}

/// The order modifiers are pressed in: Shift, Control, Alt.
pub open spec fn press_rank(m: Modifier) -> int {
    match m {
        Modifier::Shift => 0,
        Modifier::Control => 1,
        Modifier::Alt => 2,
    }
}

/// How many modifiers a plan needs.
pub open spec fn needed_count(p: KeyPlan) -> int {
    (if p.shift { 1int } else { 0int }) + (if p.ctrl { 1int } else { 0int }) + (if p.alt {
        1int
    } else {
        0int
    })
}

/// The events that type a planned key: press the needed modifiers, click
/// the base key, then release the modifiers in reverse order.
pub open spec fn physical_events_of(p: KeyPlan) -> Seq<KeyEvent> {
    let m = plan_modifiers(p);
    m.map_values(|x: Modifier| KeyEvent::Press(x)) + seq![KeyEvent::Click(p.scancode)]
        + m.reverse().map_values(|x: Modifier| KeyEvent::Release(x))
}

/// The key events that type a planned physical key.
pub fn physical_events(p: KeyPlan) -> (r: Vec<KeyEvent>)
    ensures
        r@ == physical_events_of(p),
        r@.len() == 2 * needed_count(p) + 1,
        r@[needed_count(p)] == KeyEvent::Click(p.scancode),
        forall|m: Modifier| r@.contains(KeyEvent::Press(m)) <==> needs(p, m),
        forall|m: Modifier| r@.contains(KeyEvent::Release(m)) <==> needs(p, m),
{
    let mut mods: Vec<Modifier> = Vec::new();
    if p.shift {
        mods.push(Modifier::Shift);
    }
    if p.ctrl {
        mods.push(Modifier::Control);
    }
    if p.alt {
        mods.push(Modifier::Alt);
    }
    assert(mods@ == plan_modifiers(p));
    let mut r: Vec<KeyEvent> = Vec::new();
    let mut i: usize = 0;
    while i < mods.len()
        invariant
            i <= mods.len(),
            r@ == mods@.take(i as int).map_values(|x: Modifier| KeyEvent::Press(x)),
        decreases mods.len() - i,
    {
        r.push(KeyEvent::Press(mods[i]));
        i = i + 1;
        assert(r@ == mods@.take(i as int).map_values(|x: Modifier| KeyEvent::Press(x)));
    }
    assert(mods@.take(i as int) == mods@);
    r.push(KeyEvent::Click(p.scancode));
    let ghost head = r@;
    let mut j: usize = mods.len();
    while j > 0
        invariant
            j <= mods.len(),
            r@ == head + mods@.reverse().take(mods.len() - j).map_values(
                |x: Modifier| KeyEvent::Release(x),
            ),
        decreases j,
    {
        j = j - 1;
        r.push(KeyEvent::Release(mods[j]));
        assert(mods@.reverse()[mods.len() - j - 1] == mods@[j as int]);
        assert(mods@.reverse().take(mods.len() - j) == mods@.reverse().take(mods.len() - j - 1)
            + seq![mods@[j as int]]);
        assert(r@ == head + mods@.reverse().take(mods.len() - j).map_values(
            |x: Modifier| KeyEvent::Release(x),
        ));
    }
    assert(mods@.reverse().take(mods.len() as int) == mods@.reverse());
    assert(r@ =~= physical_events_of(p));
    proof {
        lemma_physical_events_hold_exactly_the_needed_modifiers(p);
    }
    r
}

/// Every modifier pressed for a physical key is released again, in
/// reverse order, after the base key.
pub proof fn lemma_modifiers_released_in_reverse(p: KeyPlan)
    ensures
        ({
            let e = physical_events_of(p);
            let n = plan_modifiers(p).len();
            &&& e.len() == 2 * n + 1
            &&& e[n as int] == KeyEvent::Click(p.scancode)
            &&& forall|i: int|
                0 <= i < n ==> (#[trigger] e[i] matches KeyEvent::Press(m) && e[2 * n - i]
                    == KeyEvent::Release(m))
        }),
{
    let m = plan_modifiers(p);
    let n = m.len();
    let e = physical_events_of(p);
    assert forall|i: int| 0 <= i < n implies (#[trigger] e[i] matches KeyEvent::Press(x) && e[2
        * n - i] == KeyEvent::Release(x)) by {
        assert(e[i] == KeyEvent::Press(m[i]));
        assert(m.reverse()[n - 1 - i] == m[i]);
        assert(e[2 * n - i] == KeyEvent::Release(m.reverse()[n - 1 - i]));
    }
}

proof fn lemma_plan_modifiers(p: KeyPlan)
    ensures
        plan_modifiers(p).len() == needed_count(p),
        forall|i: int| 0 <= i < plan_modifiers(p).len() ==> needs(p, #[trigger] plan_modifiers(p)[i]),
        forall|m: Modifier| needs(p, m) ==> plan_modifiers(p).contains(m),
        forall|i: int, j: int|
            0 <= i < j < plan_modifiers(p).len() ==> press_rank(#[trigger] plan_modifiers(p)[i])
                < press_rank(#[trigger] plan_modifiers(p)[j]),
{
    let m = plan_modifiers(p);
    let a: Seq<Modifier> = if p.shift { seq![Modifier::Shift] } else { Seq::empty() };
    let b: Seq<Modifier> = if p.ctrl { seq![Modifier::Control] } else { Seq::empty() };
    let c: Seq<Modifier> = if p.alt { seq![Modifier::Alt] } else { Seq::empty() };
    assert(m == a + b + c);
    assert forall|i: int| 0 <= i < m.len() implies needs(p, #[trigger] m[i]) by {
        if i < a.len() {
            assert(m[i] == a[i]);
        } else if i < a.len() + b.len() {
            assert(m[i] == b[i - a.len()]);
        } else {
            assert(m[i] == c[i - a.len() - b.len()]);
        }
    }
    assert forall|x: Modifier| needs(p, x) implies m.contains(x) by {
        match x {
            Modifier::Shift => assert(m[0] == x),
            Modifier::Control => assert(m[a.len() as int] == x),
            Modifier::Alt => assert(m[(a.len() + b.len()) as int] == x),
        }
    }
    assert forall|i: int, j: int| 0 <= i < j < m.len() implies press_rank(#[trigger] m[i])
        < press_rank(#[trigger] m[j]) by {
        if i < a.len() {
            assert(m[i] == Modifier::Shift);
        } else if i < a.len() + b.len() {
            assert(m[i] == Modifier::Control);
        }
        if j < a.len() {
            assert(m[j] == Modifier::Shift);
        } else if j < a.len() + b.len() {
            assert(m[j] == Modifier::Control);
        } else {
            assert(m[j] == Modifier::Alt);
        }
    }
}

proof fn lemma_event_positions(p: KeyPlan)
    ensures
        ({
            let e = physical_events_of(p);
            let m = plan_modifiers(p);
            let n = m.len() as int;
            &&& e.len() == 2 * n + 1
            &&& e[n] == KeyEvent::Click(p.scancode)
            &&& forall|i: int| 0 <= i < n ==> #[trigger] e[i] == KeyEvent::Press(m[i])
            &&& forall|i: int| n < i < e.len() ==> #[trigger] e[i] == KeyEvent::Release(m[2 * n - i])
        }),
{
    let m = plan_modifiers(p);
    let n = m.len() as int;
    let e = physical_events_of(p);
    let pr = m.map_values(|x: Modifier| KeyEvent::Press(x));
    let rl = m.reverse().map_values(|x: Modifier| KeyEvent::Release(x));
    assert(e == pr + seq![KeyEvent::Click(p.scancode)] + rl);
    assert forall|i: int| 0 <= i < n implies #[trigger] e[i] == KeyEvent::Press(m[i]) by {
        assert(e[i] == pr[i]);
    }
    assert forall|i: int| n < i < e.len() implies #[trigger] e[i] == KeyEvent::Release(
        m[2 * n - i],
    ) by {
        assert(e[i] == rl[i - n - 1]);
        assert(m.reverse()[i - n - 1] == m[n - 1 - (i - n - 1)]);
    }
}

/// Typing a planned key presses exactly the modifiers the plan asks for
/// (Shift if `shift`, Control if `ctrl`, Alt if `alt`), in the order Shift,
/// Control, Alt, then clicks the base key, then releases each pressed
/// modifier; nothing else is pressed or released.
pub proof fn lemma_physical_events_hold_exactly_the_needed_modifiers(p: KeyPlan)
    ensures
        physical_events_of(p).len() == 2 * needed_count(p) + 1,
        physical_events_of(p)[needed_count(p)] == KeyEvent::Click(p.scancode),
        forall|i: int|
            0 <= i < needed_count(p) ==> (#[trigger] physical_events_of(p)[i]) is Press,
        forall|i: int|
            needed_count(p) < i < physical_events_of(p).len() ==> (
            #[trigger] physical_events_of(p)[i]) is Release,
        forall|x: Modifier| #[trigger]
            physical_events_of(p).contains(KeyEvent::Press(x)) <==> needs(p, x),
        forall|x: Modifier| #[trigger]
            physical_events_of(p).contains(KeyEvent::Release(x)) <==> needs(p, x),
        forall|i: int, j: int|
            #![trigger physical_events_of(p)[i], physical_events_of(p)[j]]
            0 <= i < j < needed_count(p) ==> (physical_events_of(p)[i] matches KeyEvent::Press(x)
                && physical_events_of(p)[j] matches KeyEvent::Press(y) && press_rank(x)
                < press_rank(y)),
{
    lemma_plan_modifiers(p);
    lemma_event_positions(p);
    let m = plan_modifiers(p);
    let n = m.len() as int;
    let e = physical_events_of(p);
    assert forall|x: Modifier| #[trigger] e.contains(KeyEvent::Press(x)) <==> needs(p, x) by {
        if e.contains(KeyEvent::Press(x)) {
            let i = choose|i: int| 0 <= i < e.len() && e[i] == KeyEvent::Press(x);
            if i < n {
                assert(e[i] == KeyEvent::Press(m[i]));
            } else if i > n {
                assert(e[i] == KeyEvent::Release(m[2 * n - i]));
            }
        }
        if needs(p, x) {
            let k = choose|k: int| 0 <= k < m.len() && m[k] == x;
            assert(e[k] == KeyEvent::Press(m[k]));
        }
    }
    assert forall|x: Modifier| #[trigger] e.contains(KeyEvent::Release(x)) <==> needs(p, x) by {
        if e.contains(KeyEvent::Release(x)) {
            let i = choose|i: int| 0 <= i < e.len() && e[i] == KeyEvent::Release(x);
            if i < n {
                assert(e[i] == KeyEvent::Press(m[i]));
            } else if i > n {
                assert(e[i] == KeyEvent::Release(m[2 * n - i]));
                assert(needs(p, m[2 * n - i]));
            }
        }
        if needs(p, x) {
            let k = choose|k: int| 0 <= k < m.len() && m[k] == x;
            assert(e[2 * n - k] == KeyEvent::Release(m[k]));
        }
    }
    assert forall|i: int, j: int| #![trigger e[i], e[j]] 0 <= i < j < n implies (e[i] matches KeyEvent::Press(x)
        && e[j] matches KeyEvent::Press(y) && press_rank(x) < press_rank(y)) by {
        assert(e[i] == KeyEvent::Press(m[i]));
        assert(e[j] == KeyEvent::Press(m[j]));
    }
}

} // verus!
