//! Keyboard decisions of the Wayland backends: keysyms, keycode lookup in a
//! keymap, the key events each backend sends, and which backend a session
//! gets.
use vstd::prelude::*;
use vstd::arithmetic::power2::pow2;
use vstd::bits::{lemma_u32_pow2_no_overflow, lemma_u32_shl_is_mul};

use crate::text::{chars_of, has_prefix, starts_with};

verus! {

broadcast use vstd::string::group_string_axioms;

/// The X11 keysym of a character, as the keyboard backends send it.
pub open spec fn keysym_of(c: char) -> u32 {
    if c == '\n' {
        0xff0d
    } else if c == '\t' {
        0xff09
    } else if c == '\u{8}' || c == '\u{7f}' {
        0xff08
    } else if c == '\u{1b}' {
        0xff1b
    } else if (0x20 <= c as u32 <= 0x7e) || (0xa0 <= c as u32 <= 0xff) {
        c as u32
    } else {
        (0x0100_0000 + c as u32) as u32
    }
}

/// Maps a character to its X11 keysym: the printable Latin-1 ranges map to
/// themselves, a few control characters to their function keysyms, and every
/// other character to the Unicode keysym range (`0x0100_0000 + code point`).
pub fn char_to_keysym(c: char) -> (k: u32)
    ensures
        k == keysym_of(c),
        (0x20 <= c as u32 <= 0x7e || 0xa0 <= c as u32 <= 0xff) ==> k == c as u32,
{
    if c == '\n' {
        0xff0d
    } else if c == '\t' {
        0xff09
    } else if c == '\u{8}' || c == '\u{7f}' {
        0xff08
    } else if c == '\u{1b}' {
        0xff1b
    } else {
        let cp = c as u32;
        if (0x20 <= cp && cp <= 0x7e) || (0xa0 <= cp && cp <= 0xff) {
            cp
        } else {
            0x0100_0000 + cp
        }
    }
}

/// Which keysym a character gets: Enter, Tab, BackSpace and Escape for the
/// newline, tab, backspace or delete, and escape characters; the code point
/// itself for every printable ASCII character (the space included) and
/// every Latin-1 character from U+00A0 to U+00FF; the Unicode keysym
/// `0x0100_0000 + code point` for every other character.
pub proof fn lemma_keysym_of_each_character(c: char)
    ensures
        c == '\n' ==> keysym_of(c) == 0xff0d,
        c == '\t' ==> keysym_of(c) == 0xff09,
        (c == '\u{8}' || c == '\u{7f}') ==> keysym_of(c) == 0xff08,
        c == '\u{1b}' ==> keysym_of(c) == 0xff1b,
        (0x20 <= c as u32 <= 0x7e || 0xa0 <= c as u32 <= 0xff) ==> keysym_of(c) == c as u32,
        !(0x20 <= c as u32 <= 0x7e || 0xa0 <= c as u32 <= 0xff) && c != '\n' && c != '\t' && c
            != '\u{8}' && c != '\u{7f}' && c != '\u{1b}' ==> keysym_of(c) == 0x0100_0000 + c as u32,
{
}

/// The keysyms of one layout group of a keymap, read out of the keymap:
/// `syms[kc - min_keycode][level]` lists what keycode `kc` produces at that
/// shift level (0 = base, 1 = Shift, 2 = AltGr, 3 = Shift+AltGr).
pub struct KeyTable {
    pub min_keycode: u32,
    pub max_keycode: u32,
    pub syms: Vec<Vec<Vec<u32>>>,
}

impl KeyTable {
    /// The keysyms of keycode `kc` at `level`; none outside the table.
    pub open spec fn syms_at(&self, kc: int, level: int) -> Seq<u32> {
        let off = kc - self.min_keycode;
        if 0 <= off < self.syms@.len() && 0 <= level < self.syms@[off]@.len() {
            self.syms@[off]@[level]@
        } else {
            Seq::empty()
        }
    }

    /// Keycode `kc`, within the keymap's range, produces `keysym` at `level`.
    pub open spec fn produces(&self, kc: int, level: int, keysym: u32) -> bool {
        &&& self.min_keycode <= kc <= self.max_keycode
        &&& self.syms_at(kc, level).contains(keysym)
    }
}

fn list_contains(v: &Vec<u32>, x: u32) -> (b: bool)
    ensures
        b == v@.contains(x),
{
    let mut i: usize = 0;
    while i < v.len()
        invariant
            i <= v.len(),
            forall|j: int| 0 <= j < i ==> v@[j] != x,
        decreases v.len() - i,
    {
        if v[i] == x {
            return true;
        }
        i = i + 1;
    }
    false
}

fn table_syms(t: &KeyTable, kc: u32, level: u32) -> (b: &Vec<u32>)
    requires
        t.min_keycode <= kc,
        (kc - t.min_keycode) < t.syms@.len(),
        level < t.syms@[kc - t.min_keycode]@.len(),
    ensures
        b@ == t.syms_at(kc as int, level as int),
{
    &t.syms[(kc - t.min_keycode) as usize][level as usize]
}

/// Finds a keycode and shift level producing `keysym`. Levels are searched
/// first, so the simplest key wins (the dedicated `/` key rather than an
/// AltGr combination on a lower keycode); within a level the lowest keycode
/// wins.
pub fn keycode_level(table: &KeyTable, keysym: u32) -> (r: Option<(u32, usize)>)
    ensures
        r matches Some((kc, level)) ==> {
            &&& level < 4
            &&& table.produces(kc as int, level as int, keysym)
            &&& forall|l: int, k: int|
                (0 <= l < level || (l == level && k < kc)) ==> !#[trigger] table.produces(
                    k,
                    l,
                    keysym,
                )
        },
        r is None ==> forall|l: int, k: int| 0 <= l < 4 ==> !#[trigger] table.produces(k, l, keysym),
{
    let mut level: u32 = 0;
    while level < 4
        invariant
            level <= 4,
            forall|l: int, k: int| 0 <= l < level ==> !#[trigger] table.produces(k, l, keysym),
        decreases 4 - level,
    {
        let mut kc: u64 = table.min_keycode as u64;
        while kc <= table.max_keycode as u64
            invariant
                level < 4,
                table.min_keycode <= kc,
                kc <= table.max_keycode as u64 + 1 || kc == table.min_keycode,
                forall|l: int, k: int| 0 <= l < level ==> !#[trigger] table.produces(k, l, keysym),
                forall|k: int| k < kc ==> !#[trigger] table.produces(k, level as int, keysym),
            decreases table.max_keycode as u64 + 1 - kc,
        {
            let k = kc as u32;
            let off = (k - table.min_keycode) as usize;
            if off < table.syms.len() && (level as usize) < table.syms[off].len() {
                let syms = table_syms(table, k, level);
                if list_contains(syms, keysym) {
                    return Some((k, level as usize));
                }
            }
            kc = kc + 1;
        }
        level = level + 1;
    }
    None
}

/// The modifier index xkb gives for a modifier the keymap does not have.
pub const MOD_INVALID: u32 = 0xffff_ffff;

/// The mask bit of a keymap modifier index, or 0 for [`MOD_INVALID`].
pub fn mod_mask(idx: u32) -> (m: u32)
    requires
        idx == MOD_INVALID || idx < 32,
    ensures
        idx == MOD_INVALID ==> m == 0,
        idx != MOD_INVALID ==> m == pow2(idx as nat),
{
    if idx == MOD_INVALID {
        0
    } else {
        proof {
            lemma_u32_pow2_no_overflow(idx as nat);
            lemma_u32_shl_is_mul(1, idx);
        }
        1u32 << idx
    }
}

/// The modifier state a virtual keyboard sets for a shift level: Shift for
/// level 1, AltGr for level 2, both for level 3, none otherwise.
pub open spec fn level_mask(level: usize, shift_mask: u32, altgr_mask: u32) -> u32 {
    if level == 1 {
        shift_mask
    } else if level == 2 {
        altgr_mask
    } else if level == 3 {
        shift_mask | altgr_mask
    } else {
        0
    }
}

/// The depressed-modifier mask for typing at `level` on a virtual keyboard.
pub fn depressed_mask(level: usize, shift_mask: u32, altgr_mask: u32) -> (m: u32)
    ensures
        m == level_mask(level, shift_mask, altgr_mask),
{
    match level {
        1 => shift_mask,
        2 => altgr_mask,
        3 => shift_mask | altgr_mask,
        _ => 0,
    }
}

/// Offset between xkb keycodes and the evdev codes that libei and the
/// virtual-keyboard protocol take.
pub const EVDEV_OFFSET: u32 = 8;

/// The modifier keycodes held for a shift level over libei: Shift for
/// levels 1 and 3, AltGr for levels 2 and 3, each only where the keymap has
/// that modifier key.
pub open spec fn level_modifiers(level: usize, shift_kc: Option<u32>, altgr_kc: Option<u32>) -> Seq<
    u32,
> {
    (match shift_kc {
        Some(s) => if level == 1 || level == 3 {
            seq![s]
        } else {
            Seq::empty()
        },
        None => Seq::empty(),
    }) + (match altgr_kc {
        Some(a) => if level == 2 || level == 3 {
            seq![a]
        } else {
            Seq::empty()
        },
        None => Seq::empty(),
    })
}

/// The libei key events `(evdev code, pressed)` that type keycode `kc` at
/// `level`: modifiers pressed, the key pressed and released, then the
/// modifiers released in reverse order.
pub open spec fn libei_events_of(
    kc: u32,
    level: usize,
    shift_kc: Option<u32>,
    altgr_kc: Option<u32>,
) -> Seq<(u32, bool)> {
    let m = level_modifiers(level, shift_kc, altgr_kc);
    m.map_values(|x: u32| ((x - EVDEV_OFFSET) as u32, true)) + seq![
        ((kc - EVDEV_OFFSET) as u32, true),
        ((kc - EVDEV_OFFSET) as u32, false),
    ] + m.reverse().map_values(|x: u32| ((x - EVDEV_OFFSET) as u32, false))
}

/// The libei key events for one keystroke.
pub fn libei_key_events(kc: u32, level: usize, shift_kc: Option<u32>, altgr_kc: Option<u32>) -> (r:
    Vec<(u32, bool)>)
    requires
        kc >= EVDEV_OFFSET,
        shift_kc matches Some(s) ==> s >= EVDEV_OFFSET,
        altgr_kc matches Some(a) ==> a >= EVDEV_OFFSET,
    ensures
        r@ == libei_events_of(kc, level, shift_kc, altgr_kc),
{
    let mut mods: Vec<u32> = Vec::new();
    if level == 1 || level == 3 {
        if let Some(s) = shift_kc {
            mods.push(s);
        }
    }
    if level == 2 || level == 3 {
        if let Some(a) = altgr_kc {
            mods.push(a);
        }
    }
    assert(mods@ == level_modifiers(level, shift_kc, altgr_kc));
    let mut r: Vec<(u32, bool)> = Vec::new();
    let mut i: usize = 0;
    while i < mods.len()
        invariant
            i <= mods.len(),
            mods@ == level_modifiers(level, shift_kc, altgr_kc),
            shift_kc matches Some(s) ==> s >= EVDEV_OFFSET,
            altgr_kc matches Some(a) ==> a >= EVDEV_OFFSET,
            forall|j: int| 0 <= j < mods.len() ==> mods@[j] >= EVDEV_OFFSET,
            r@ == mods@.take(i as int).map_values(|x: u32| ((x - EVDEV_OFFSET) as u32, true)),
        decreases mods.len() - i,
    {
        r.push((mods[i] - EVDEV_OFFSET, true));
        i = i + 1;
        assert(r@ == mods@.take(i as int).map_values(
            |x: u32| ((x - EVDEV_OFFSET) as u32, true),
        ));
    }
    assert(mods@.take(i as int) == mods@);
    r.push((kc - EVDEV_OFFSET, true));
    r.push((kc - EVDEV_OFFSET, false));
    let ghost head = r@;
    let mut j: usize = mods.len();
    while j > 0
        invariant
            j <= mods.len(),
            forall|q: int| 0 <= q < mods.len() ==> mods@[q] >= EVDEV_OFFSET,
            r@ == head + mods@.reverse().take(mods.len() - j).map_values(
                |x: u32| ((x - EVDEV_OFFSET) as u32, false),
            ),
        decreases j,
    {
        j = j - 1;
        r.push((mods[j] - EVDEV_OFFSET, false));
        assert(mods@.reverse()[mods.len() - j - 1] == mods@[j as int]);
        assert(mods@.reverse().take(mods.len() - j) == mods@.reverse().take(mods.len() - j - 1)
            + seq![mods@[j as int]]);
        assert(r@ == head + mods@.reverse().take(mods.len() - j).map_values(
            |x: u32| ((x - EVDEV_OFFSET) as u32, false),
        ));
    }
    assert(mods@.reverse().take(mods.len() as int) == mods@.reverse());
    r
}

/// Over libei every modifier held for a key is pressed before it and
/// released after it, in reverse order.
pub proof fn lemma_libei_modifiers_released_in_reverse(
    kc: u32,
    level: usize,
    shift_kc: Option<u32>,
    altgr_kc: Option<u32>,
)
    ensures
        ({
            let e = libei_events_of(kc, level, shift_kc, altgr_kc);
            let n = level_modifiers(level, shift_kc, altgr_kc).len();
            &&& e.len() == 2 * n + 2
            &&& e[n as int] == ((kc - EVDEV_OFFSET) as u32, true)
            &&& e[n + 1int] == ((kc - EVDEV_OFFSET) as u32, false)
            &&& forall|i: int|
                0 <= i < n ==> (#[trigger] e[i]).1 && !e[2 * n + 1 - i].1 && e[i].0 == e[2 * n + 1
                    - i].0
        }),
{
    let m = level_modifiers(level, shift_kc, altgr_kc);
    let n = m.len();
    let e = libei_events_of(kc, level, shift_kc, altgr_kc);
    assert forall|i: int| 0 <= i < n implies (#[trigger] e[i]).1 && !e[2 * n + 1 - i].1 && e[i].0
        == e[2 * n + 1 - i].0 by {
        assert(m.reverse()[n - 1 - i] == m[i]);
    }
}

/// The text without trailing zero bytes.
pub open spec fn trim_trailing_zeros(s: Seq<u8>) -> Seq<u8>
    decreases s.len(),
{
    if s.len() > 0 && s.last() == 0 {
        trim_trailing_zeros(s.drop_last())
    } else {
        s
    }
}

/// Drops the NUL terminator(s) that end a keymap sent over a file
/// descriptor.
pub fn strip_trailing_nuls(buf: &mut Vec<u8>)
    ensures
        final(buf)@ == trim_trailing_zeros(old(buf)@),
{
    while buf.len() > 0 && buf[buf.len() - 1] == 0
        invariant
            trim_trailing_zeros(old(buf)@) == trim_trailing_zeros(buf@),
        decreases buf.len(),
    {
        buf.pop();
    }
}

/// Whether `p` occurs in `s`.
pub open spec fn contains_text(s: Seq<char>, p: Seq<char>) -> bool {
    exists|i: int| 0 <= i && i + p.len() <= s.len() && #[trigger] s.subrange(i, i + p.len()) == p
}

fn contains_chars(v: &Vec<char>, pat: &Vec<char>) -> (b: bool)
    ensures
        b == contains_text(v@, pat@),
{
    if pat.len() > v.len() {
        return false;
    }
    let last = v.len() - pat.len();
    let mut i: usize = 0;
    let mut checked_all = false;
    while !checked_all
        invariant
            last + pat.len() == v.len(),
            i <= last,
            forall|j: int| 0 <= j < i ==> #[trigger] v@.subrange(j, j + pat.len()) != pat@,
            checked_all ==> forall|j: int|
                0 <= j <= last ==> #[trigger] v@.subrange(j, j + pat.len()) != pat@,
        decreases last - i, if checked_all { 0int } else { 1int },
    {
        let found = has_prefix(v, i, v.len(), pat);
        assert(v@.subrange(i as int, v.len() as int).take(pat.len() as int) == v@.subrange(
            i as int,
            i + pat.len(),
        ));
        if found {
            return true;
        }
        if i == last {
            checked_all = true;
        } else {
            i = i + 1;
        }
    }
    false
}

/// Whether `pat` occurs in `s`.
pub fn contains_str(s: &str, pat: &str) -> (b: bool)
    ensures
        b == contains_text(s@, pat@),
{
    let v = chars_of(s);
    let p = chars_of(pat);
    contains_chars(&v, &p)
}

/// The Unicode lowercase mapping of a text, as `str::to_lowercase` gives it.
pub uninterp spec fn lowercase_of(s: Seq<char>) -> Seq<char>;

/// The Unicode uppercase mapping of a text, as `str::to_uppercase` gives it.
pub uninterp spec fn uppercase_of(s: Seq<char>) -> Seq<char>;

/// `str::to_lowercase`: its result is a function of the text alone, named
/// [`lowercase_of`]; the Unicode case tables it applies are not written out.
#[verifier::external_body]
fn to_lowercase(s: &str) -> (r: String)
    ensures
        r@ == lowercase_of(s@),
{
    s.to_lowercase()
}

/// `str::to_uppercase`: its result is a function of the text alone, named
/// [`uppercase_of`]; the Unicode case tables it applies are not written out.
#[verifier::external_body]
fn to_uppercase(s: &str) -> (r: String)
    ensures
        r@ == uppercase_of(s@),
{
    s.to_uppercase()
}

/// The phrases by which a D-Bus error says that the RemoteDesktop portal
/// is not there at all.
pub open spec fn names_absence(lower: Seq<char>) -> bool {
    ||| contains_text(lower, "not found"@)
    ||| contains_text(lower, "serviceunknown"@)
    ||| contains_text(lower, "no owner"@)
    ||| contains_text(lower, "not provided"@)
    ||| contains_text(lower, "not implemented"@)
}

/// Whether an error text, already lowercased, names the portal as absent.
pub fn names_absence_in(lower: &str) -> (b: bool)
    ensures
        b == names_absence(lower@),
{
    contains_str(lower, "not found") || contains_str(lower, "serviceunknown") || contains_str(
        lower,
        "no owner",
    ) || contains_str(lower, "not provided") || contains_str(lower, "not implemented")
}

/// Heuristic: does this error text mean the RemoteDesktop portal isn't
/// available (so the caller should fall back to X11) rather than a genuine
/// failure? Compares case-insensitively.
pub fn looks_absent(s: &str) -> (b: bool)
    ensures
        b == names_absence(lowercase_of(s@)),
{
    let lower = to_lowercase(s);
    names_absence_in(lower.as_str())
}

/// The RemoteDesktop-portal backend a Wayland session without a virtual
/// keyboard gets.
#[derive(Debug, Clone, Copy, PartialEq, Eq, Structural)]
pub enum PortalBackend {
    /// libei keycode injection with the layout read from KDE.
    Libei,
    /// The portal's keysym notifications.
    Keysym,
}

/// Whether a desktop name, already uppercased, names KDE.
pub fn names_kde(upper: &str) -> (b: bool)
    ensures
        b == contains_text(upper@, "KDE"@),
{
    contains_str(upper, "KDE")
}

/// KDE's keysym path is unreliable on older versions, so KDE (named in
/// `XDG_CURRENT_DESKTOP`, in any case) uses libei; every other desktop the
/// keysym path.
pub fn portal_backend(desktop: &str) -> (b: PortalBackend)
    ensures
        b == (if contains_text(uppercase_of(desktop@), "KDE"@) {
            PortalBackend::Libei
        } else {
            PortalBackend::Keysym
        }),
{
    let upper = to_uppercase(desktop);
    if names_kde(upper.as_str()) {
        PortalBackend::Libei
    } else {
        PortalBackend::Keysym
    }
}

/// Whether a Wayland backend sends a character: a carriage return is
/// dropped, since the newline of a CRLF pair already gives Enter.
pub fn wayland_sends(c: char) -> (b: bool)
    ensures
        b == (c != '\r'),
{
    c != '\r'
}


/// The keysym of the left Shift key.
pub const KEY_SHIFT_L: u32 = 0xffe1;

/// The keysym of the AltGr (ISO level 3 shift) key.
pub const KEY_ISO_LEVEL3_SHIFT: u32 = 0xfe03;

/// The libei key events that type `keysym` with a keymap's group, or
/// `None` when no key of the group produces it (the character is then
/// skipped).
pub fn libei_keystroke(
    table: &KeyTable,
    keysym: u32,
    shift_kc: Option<u32>,
    altgr_kc: Option<u32>,
) -> (r: Option<Vec<(u32, bool)>>)
    requires
        table.min_keycode >= EVDEV_OFFSET,
        shift_kc matches Some(s) ==> s >= EVDEV_OFFSET,
        altgr_kc matches Some(a) ==> a >= EVDEV_OFFSET,
    ensures
        r is None ==> forall|l: int, k: int| 0 <= l < 4 ==> !#[trigger] table.produces(k, l, keysym),
        r matches Some(ev) ==> exists|kc: u32, level: usize|
            {
                &&& level < 4
                &&& #[trigger] table.produces(kc as int, level as int, keysym)
                &&& forall|l: int, k: int|
                    (0 <= l < level || (l == level && k < kc)) ==> !#[trigger] table.produces(
                        k,
                        l,
                        keysym,
                    )
                &&& ev@ == libei_events_of(kc, level, shift_kc, altgr_kc)
            },
{
    match keycode_level(table, keysym) {
        None => None,
        Some((kc, level)) => {
            let ev = libei_key_events(kc, level, shift_kc, altgr_kc);
            assert(table.produces(kc as int, level as int, keysym));
            Some(ev)
        },
    }
}

/// One request to a virtual keyboard.
#[derive(Debug, Clone, Copy, PartialEq, Eq, Structural)]
pub enum VkbdRequest {
    /// Set the depressed modifiers.
    Modifiers(u32),
    /// Press (`true`) or release a key, by evdev code, at a time stamp.
    Key { time: u32, code: u32, pressed: bool },
}

/// The requests that type keycode `kc` at `level` on a virtual keyboard,
/// starting at time stamp `time`: set the level's modifiers, press and
/// release the key 10 ms apart, clear the modifiers; then the next time
/// stamp (time stamps wrap around).
pub open spec fn vkbd_requests_of(
    kc: u32,
    level: usize,
    shift_mask: u32,
    altgr_mask: u32,
    time: u32,
) -> (Seq<VkbdRequest>, u32) {
    let t1 = ((time + 10) % 0x1_0000_0000) as u32;
    let t2 = ((t1 + 10) % 0x1_0000_0000) as u32;
    (
        seq![
            VkbdRequest::Modifiers(level_mask(level, shift_mask, altgr_mask)),
            VkbdRequest::Key { time, code: (kc - EVDEV_OFFSET) as u32, pressed: true },
            VkbdRequest::Key { time: t1, code: (kc - EVDEV_OFFSET) as u32, pressed: false },
            VkbdRequest::Modifiers(0),
        ],
        t2,
    )
}

/// The virtual-keyboard requests for one keystroke, and the next time
/// stamp.
pub fn vkbd_requests(kc: u32, level: usize, shift_mask: u32, altgr_mask: u32, time: u32) -> (r: (
    Vec<VkbdRequest>,
    u32,
))
    requires
        kc >= EVDEV_OFFSET,
    ensures
        (r.0@, r.1) == vkbd_requests_of(kc, level, shift_mask, altgr_mask, time),
{
    let code = kc - EVDEV_OFFSET;
    let t1 = time.wrapping_add(10);
    let t2 = t1.wrapping_add(10);
    let mut v: Vec<VkbdRequest> = Vec::new();
    v.push(VkbdRequest::Modifiers(depressed_mask(level, shift_mask, altgr_mask)));
    v.push(VkbdRequest::Key { time, code, pressed: true });
    v.push(VkbdRequest::Key { time: t1, code, pressed: false });
    v.push(VkbdRequest::Modifiers(0));
    (v, t2)
}

} // verus!
