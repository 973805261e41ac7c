//! Reading the physical Escape key from the X server's keyboard state, so
//! that typing can be cancelled while the window is minimized and another
//! application is focused. The state is only read; the key is never
//! grabbed.
use vstd::prelude::*;

verus! {

/// The keysym of the Escape key.
pub const ESCAPE_KEYSYM: u32 = 0xff1b;

/// Whether no entry of `syms[..i]` is `keysym`.
pub open spec fn absent_before(syms: Seq<u32>, i: int, keysym: u32) -> bool {
    forall|j: int| 0 <= j < i ==> syms[j] != keysym
}

/// The keycode that produces `keysym` first in a keyboard mapping: the
/// mapping lists `per_keycode` keysyms for each keycode from `min_keycode`
/// on, and the first entry equal to `keysym` decides. `None` when no entry
/// is, or when that keycode would not fit a byte.
pub fn keycode_of_keysym(syms: &Vec<u32>, per_keycode: u8, min_keycode: u8, keysym: u32) -> (r:
    Option<u8>)
    ensures
        r matches Some(kc) ==> per_keycode > 0 && exists|i: int|
            0 <= i < syms@.len() && syms@[i] == keysym && absent_before(syms@, i, keysym)
                && kc == min_keycode + i / (per_keycode as int),
        r is None ==> per_keycode == 0 || forall|i: int|
            0 <= i < syms@.len() && syms@[i] == keysym && absent_before(syms@, i, keysym)
                ==> min_keycode + i / (per_keycode as int) > 255,
{
    if per_keycode == 0 {
        return None;
    }
    let mut i: usize = 0;
    while i < syms.len()
        invariant
            per_keycode > 0,
            i <= syms.len(),
            absent_before(syms@, i as int, keysym),
        decreases syms.len() - i,
    {
        if syms[i] == keysym {
            let q = i / (per_keycode as usize);
            if q <= 255 - min_keycode as usize {
                return Some(min_keycode + q as u8);
            }
            return None;
        }
        i = i + 1;
    }
    None
}

/// Whether bit `keycode` is set in a keymap bit vector (keycode `k` is bit
/// `k % 8` of byte `k / 8`), as the X server reports pressed keys.
pub open spec fn bit_set(keys: Seq<u8>, keycode: u8) -> bool {
    let byte = keycode / 8;
    byte < keys.len() && (keys[byte as int] / pow2_u8(keycode % 8)) % 2 == 1
}

pub open spec fn pow2_u8(n: u8) -> u8 {
    if n == 0 {
        1
    } else if n == 1 {
        2
    } else if n == 2 {
        4
    } else if n == 3 {
        8
    } else if n == 4 {
        16
    } else if n == 5 {
        32
    } else if n == 6 {
        64
    } else {
        128
    }
}

/// Whether a key is down in the keyboard state the X server reports.
pub fn key_is_down(keys: &Vec<u8>, keycode: u8) -> (b: bool)
    ensures
        b == bit_set(keys@, keycode),
{
    let byte = (keycode / 8) as usize;
    if byte >= keys.len() {
        return false;
    }
    let bit = keycode % 8;
    let v = keys[byte];
    let r = (v >> bit) & 1 == 1;
    assert(((v >> bit) & 1 == 1) == ((v / pow2_u8(bit)) % 2 == 1)) by (bit_vector)
        requires
            bit < 8,
    ;
    r
}

} // verus!
