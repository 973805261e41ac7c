//! Bookkeeping of the libei (KDE) backend: the seats and the capabilities
//! each announces, the mask it is bound with, the devices and their
//! states, the keyboards with a keymap, and how each event from the server
//! moves all of it.
use vstd::prelude::*;

use std::collections::{HashMap, HashSet};

use crate::text::same_text;

verus! {

broadcast use vstd::std_specs::hash::group_hash_axioms;

/// The emulation state of a libei device.
#[derive(Debug, Clone, Copy, PartialEq, Eq, Structural)]
pub enum DeviceState {
    Paused,
    Resumed,
    Emulating,
}

impl Default for DeviceState {
    fn default() -> (s: DeviceState)
        ensures
            s == DeviceState::Paused,
    {
        DeviceState::Paused
    }
}

/// Emulation starts on virtual devices that the server has resumed.
pub fn should_start_emulating(is_virtual: bool, state: DeviceState) -> (b: bool)
    ensures
        b == (is_virtual && state == DeviceState::Resumed),
{
    is_virtual && state == DeviceState::Resumed
}

/// The capabilities a seat announces: interface name to capability mask.
/// A later announcement for an interface replaces the earlier one.
pub struct SeatCaps {
    entries: Vec<(String, u64)>,
}

/// The map that a list of announcements, in order, adds up to.
pub open spec fn caps_map(s: Seq<(String, u64)>) -> Map<Seq<char>, u64>
    decreases s.len(),
{
    if s.len() == 0 {
        Map::empty()
    } else {
        caps_map(s.drop_last()).insert(s.last().0@, s.last().1)
    }
}

/// The mask announced for an interface, or none.
pub open spec fn cap_bits(m: Map<Seq<char>, u64>, name: Seq<char>) -> u64 {
    if m.contains_key(name) {
        m[name]
    } else {
        0
    }
}

/// The mask a seat is bound with: the capabilities of the button,
/// keyboard, pointer, absolute pointer, scroll and touchscreen interfaces.
pub open spec fn bind_mask_of(m: Map<Seq<char>, u64>) -> u64 {
    cap_bits(m, "ei_button"@) | cap_bits(m, "ei_keyboard"@) | cap_bits(m, "ei_pointer"@) | cap_bits(
        m,
        "ei_pointer_absolute"@,
    ) | cap_bits(m, "ei_scroll"@) | cap_bits(m, "ei_touchscreen"@)
}

proof fn lemma_caps_map_tail(s: Seq<(String, u64)>, j: int, name: Seq<char>)
    requires
        0 <= j <= s.len(),
        forall|i: int| j <= i < s.len() ==> (#[trigger] s[i]).0@ != name,
    ensures
        caps_map(s).contains_key(name) == caps_map(s.take(j)).contains_key(name),
        caps_map(s).contains_key(name) ==> caps_map(s)[name] == caps_map(s.take(j))[name],
    decreases s.len() - j,
{
    if j == s.len() {
        assert(s.take(j) == s);
    } else {
        assert(s.drop_last().take(j) == s.take(j));
        assert(s.last() == s[s.len() - 1]);
        lemma_caps_map_tail(s.drop_last(), j, name);
    }
}

impl View for SeatCaps {
    type V = Map<Seq<char>, u64>;

    closed spec fn view(&self) -> Map<Seq<char>, u64> {
        caps_map(self.entries@)
    }
}

impl SeatCaps {
    /// A seat that has announced nothing.
    pub fn new() -> (c: SeatCaps)
        ensures
            c@ == Map::<Seq<char>, u64>::empty(),
    {
        SeatCaps { entries: Vec::new() }
    }

    /// Records an announced capability.
    pub fn insert(&mut self, interface: String, mask: u64)
        ensures
            final(self)@ == old(self)@.insert(interface@, mask),
    {
        let ghost before = self.entries@;
        self.entries.push((interface, mask));
        assert(self.entries@.drop_last() == before);
    }

    /// The mask announced for an interface, if any.
    pub fn get(&self, name: &str) -> (r: Option<u64>)
        ensures
            r == (if self@.contains_key(name@) {
                Some(self@[name@])
            } else {
                None::<u64>
            }),
    {
        let mut j = self.entries.len();
        while j > 0
            invariant
                j <= self.entries.len(),
                forall|i: int|
                    j <= i < self.entries@.len() ==> (#[trigger] self.entries@[i]).0@ != name@,
            decreases j,
        {
            if same_text(self.entries[j - 1].0.as_str(), name) {
                let ghost s = self.entries@;
                proof {
                    lemma_caps_map_tail(s, j as int, name@);
                    assert(s.take(j as int).drop_last() == s.take(j - 1));
                    assert(s.take(j as int).last() == s[j - 1]);
                }
                return Some(self.entries[j - 1].1);
            }
            j = j - 1;
        }
        proof {
            lemma_caps_map_tail(self.entries@, 0, name@);
            assert(self.entries@.take(0) == Seq::<(String, u64)>::empty());
        }
        None
    }

    /// The mask to bind the seat with once it has announced everything.
    pub fn bind_mask(&self) -> (b: u64)
        ensures
            b == bind_mask_of(self@),
    {
        let mut b: u64 = self.bits("ei_button");
        b = b | self.bits("ei_keyboard");
        b = b | self.bits("ei_pointer");
        b = b | self.bits("ei_pointer_absolute");
        b = b | self.bits("ei_scroll");
        b = b | self.bits("ei_touchscreen");
        b
    }

    fn bits(&self, name: &str) -> (b: u64)
        ensures
            b == cap_bits(self@, name@),
    {
        match self.get(name) {
            Some(v) => v,
            None => 0,
        }
    }
}

/// The kind of a libei device.
#[derive(Debug, Clone, Copy, PartialEq, Eq, Structural)]
pub enum DeviceKind {
    Virtual,
    Physical,
}

/// What the backend knows of a device: its kind once announced, and its
/// emulation state.
#[derive(Debug, Clone, Copy, PartialEq, Eq, Structural)]
pub struct DeviceRecord {
    pub kind: Option<DeviceKind>,
    pub state: DeviceState,
}

impl DeviceRecord {
    /// A device just announced: kind unknown, paused.
    pub fn new() -> (d: DeviceRecord)
        ensures
            d.kind is None,
            d.state == DeviceState::Paused,
    {
        DeviceRecord { kind: None, state: DeviceState::Paused }
    }
}

/// An event from the libei server, its objects named by their ids.
pub enum LibeiEvent {
    /// The handshake finished; the connection starts at this serial.
    Connected { serial: u32 },
    /// The server closed the connection.
    Disconnected { last_serial: u32, message: String },
    /// A seat appeared.
    SeatAdded { seat: u64 },
    SeatDestroyed { seat: u64 },
    /// A seat announced a capability for an interface.
    Capability { seat: u64, interface: String, mask: u64 },
    /// A seat finished announcing its capabilities.
    SeatDone { seat: u64 },
    /// A seat added a device.
    DeviceAdded { seat: u64, device: u64 },
    DeviceDestroyed { device: u64 },
    DeviceKindKnown { device: u64, kind: DeviceKind },
    /// A device offered an interface object.
    DeviceInterface { device: u64 },
    Resumed { device: u64, serial: u32 },
    Paused { device: u64, serial: u32 },
    KeyboardDestroyed { keyboard: u64 },
    /// A keyboard sent its keymap, in the xkb format or not.
    Keymap { keyboard: u64, xkb: bool },
    /// Anything this client does not act on.
    Other,
}

/// What the caller does with its protocol objects after an event.
#[derive(Debug, Clone, Copy, PartialEq, Eq, Structural)]
pub enum LibeiAction {
    Nothing,
    /// Bind the seat with this capability mask.
    Bind { seat: u64, mask: u64 },
    /// Keep the interface object the device offered.
    KeepInterface { device: u64 },
    /// Read and compile the keymap, then report it with `keymap_loaded`.
    LoadKeymap { keyboard: u64 },
}

/// The backend's bookkeeping: seats with their capabilities, devices,
/// keyboards whose keymap is loaded, the frame sequence and the last
/// serial the server sent.
pub struct LibeiState {
    pub seats: HashMap<u64, SeatCaps>,
    pub devices: HashMap<u64, DeviceRecord>,
    pub keyboards: HashSet<u64>,
    pub sequence: u32,
    pub last_serial: u32,
}

/// Seats, devices and keyboards are as they were.
pub open spec fn same_objects(a: &LibeiState, b: &LibeiState) -> bool {
    &&& a.seats@ == b.seats@
    &&& a.devices@ == b.devices@
    &&& a.keyboards@ == b.keyboards@
}

/// Nothing changed.
pub open spec fn unchanged(a: &LibeiState, b: &LibeiState) -> bool {
    &&& same_objects(a, b)
    &&& a.sequence == b.sequence
    &&& a.last_serial == b.last_serial
}

impl LibeiState {
    /// The state right after the handshake that gave `serial`.
    pub fn new(serial: u32) -> (s: LibeiState)
        ensures
            s.seats@ == Map::<u64, SeatCaps>::empty(),
            s.devices@ == Map::<u64, DeviceRecord>::empty(),
            s.keyboards@ == Set::<u64>::empty(),
            s.sequence == 0,
            s.last_serial == serial.wrapping_add(1),
    {
        LibeiState {
            seats: HashMap::new(),
            devices: HashMap::new(),
            keyboards: HashSet::new(),
            sequence: 0,
            last_serial: serial.wrapping_add(1),
        }
    }

    /// Takes the sequence number for the next frame.
    pub fn next_sequence(&mut self) -> (n: u32)
        ensures
            n == old(self).sequence,
            final(self).sequence == old(self).sequence.wrapping_add(1),
            final(self).last_serial == old(self).last_serial,
            same_objects(&*final(self), &*old(self)),
    {
        let n = self.sequence;
        self.sequence = self.sequence.wrapping_add(1);
        n
    }

    /// Records that emulation started on a device (its start request took
    /// a sequence number).
    pub fn started_emulating(&mut self, device: u64)
        ensures
            final(self).sequence == old(self).sequence.wrapping_add(1),
            final(self).last_serial == old(self).last_serial,
            final(self).seats@ == old(self).seats@,
            final(self).keyboards@ == old(self).keyboards@,
            final(self).devices@ == (if old(self).devices@.contains_key(device) {
                old(self).devices@.insert(
                    device,
                    DeviceRecord { state: DeviceState::Emulating, ..old(self).devices@[device] },
                )
            } else {
                old(self).devices@
            }),
    {
        self.sequence = self.sequence.wrapping_add(1);
        if let Some(d) = self.devices.remove(&device) {
            self.devices.insert(device, DeviceRecord { state: DeviceState::Emulating, ..d });
        } else {
            assert(self.devices@ == old(self).devices@);
        }
    }

    /// Takes one event from the server: updates the bookkeeping and says
    /// what the caller does with its protocol objects. Events about a seat
    /// or a device that is not known change nothing. A disconnection
    /// forgets everything and fails with the server's message; a keymap in
    /// a format other than xkb fails too.
    pub fn apply_event(&mut self, ev: LibeiEvent) -> (r: Result<LibeiAction, String>)
        ensures
            match ev {
                LibeiEvent::Connected { serial } => {
                    &&& r == Ok::<LibeiAction, String>(LibeiAction::Nothing)
                    &&& same_objects(&*final(self), &*old(self))
                    &&& final(self).sequence == serial
                    &&& final(self).last_serial == serial
                },
                LibeiEvent::Disconnected { last_serial, message } => {
                    &&& r == Err::<LibeiAction, String>(message)
                    &&& final(self).seats@ == Map::<u64, SeatCaps>::empty()
                    &&& final(self).devices@ == Map::<u64, DeviceRecord>::empty()
                    &&& final(self).keyboards@ == Set::<u64>::empty()
                    &&& final(self).sequence == 0
                    &&& final(self).last_serial == last_serial
                },
                LibeiEvent::SeatAdded { seat } => {
                    &&& r == Ok::<LibeiAction, String>(LibeiAction::Nothing)
                    &&& final(self).seats@ == old(self).seats@.insert(seat, final(self).seats@[seat])
                    &&& final(self).seats@[seat]@ == Map::<Seq<char>, u64>::empty()
                    &&& final(self).devices@ == old(self).devices@
                    &&& final(self).keyboards@ == old(self).keyboards@
                    &&& final(self).sequence == old(self).sequence
                    &&& final(self).last_serial == old(self).last_serial
                },
                LibeiEvent::SeatDestroyed { seat } => {
                    &&& r == Ok::<LibeiAction, String>(LibeiAction::Nothing)
                    &&& final(self).seats@ == old(self).seats@.remove(seat)
                    &&& final(self).devices@ == old(self).devices@
                    &&& final(self).keyboards@ == old(self).keyboards@
                    &&& final(self).sequence == old(self).sequence
                    &&& final(self).last_serial == old(self).last_serial
                },
                LibeiEvent::Capability { seat, interface, mask } => {
                    &&& r == Ok::<LibeiAction, String>(LibeiAction::Nothing)
                    &&& if old(self).seats@.contains_key(seat) {
                        &&& final(self).seats@ == old(self).seats@.insert(
                            seat,
                            final(self).seats@[seat],
                        )
                        &&& final(self).seats@[seat]@ == old(self).seats@[seat]@.insert(
                            interface@,
                            mask,
                        )
                    } else {
                        final(self).seats@ == old(self).seats@
                    }
                    &&& final(self).devices@ == old(self).devices@
                    &&& final(self).keyboards@ == old(self).keyboards@
                    &&& final(self).sequence == old(self).sequence
                    &&& final(self).last_serial == old(self).last_serial
                },
                LibeiEvent::SeatDone { seat } => {
                    &&& r == Ok::<LibeiAction, String>(
                        if old(self).seats@.contains_key(seat) {
                            LibeiAction::Bind { seat, mask: bind_mask_of(old(self).seats@[seat]@) }
                        } else {
                            LibeiAction::Nothing
                        },
                    )
                    &&& unchanged(&*final(self), &*old(self))
                },
                LibeiEvent::DeviceAdded { seat, device } => {
                    &&& r == Ok::<LibeiAction, String>(LibeiAction::Nothing)
                    &&& final(self).devices@ == (if old(self).seats@.contains_key(seat) {
                        old(self).devices@.insert(
                            device,
                            DeviceRecord { kind: None, state: DeviceState::Paused },
                        )
                    } else {
                        old(self).devices@
                    })
                    &&& final(self).seats@ == old(self).seats@
                    &&& final(self).keyboards@ == old(self).keyboards@
                    &&& final(self).sequence == old(self).sequence
                    &&& final(self).last_serial == old(self).last_serial
                },
                LibeiEvent::DeviceDestroyed { device } => {
                    &&& r == Ok::<LibeiAction, String>(LibeiAction::Nothing)
                    &&& final(self).devices@ == old(self).devices@.remove(device)
                    &&& final(self).seats@ == old(self).seats@
                    &&& final(self).keyboards@ == old(self).keyboards@
                    &&& final(self).sequence == old(self).sequence
                    &&& final(self).last_serial == old(self).last_serial
                },
                LibeiEvent::DeviceKindKnown { device, kind } => {
                    &&& r == Ok::<LibeiAction, String>(LibeiAction::Nothing)
                    &&& final(self).devices@ == (if old(self).devices@.contains_key(device) {
                        old(self).devices@.insert(
                            device,
                            DeviceRecord { kind: Some(kind), ..old(self).devices@[device] },
                        )
                    } else {
                        old(self).devices@
                    })
                    &&& final(self).seats@ == old(self).seats@
                    &&& final(self).keyboards@ == old(self).keyboards@
                    &&& final(self).sequence == old(self).sequence
                    &&& final(self).last_serial == old(self).last_serial
                },
                LibeiEvent::DeviceInterface { device } => {
                    &&& r == Ok::<LibeiAction, String>(
                        if old(self).devices@.contains_key(device) {
                            LibeiAction::KeepInterface { device }
                        } else {
                            LibeiAction::Nothing
                        },
                    )
                    &&& unchanged(&*final(self), &*old(self))
                },
                LibeiEvent::Resumed { device, serial } => {
                    &&& r == Ok::<LibeiAction, String>(LibeiAction::Nothing)
                    &&& if old(self).devices@.contains_key(device) {
                        &&& final(self).devices@ == old(self).devices@.insert(
                            device,
                            DeviceRecord { state: DeviceState::Resumed, ..old(self).devices@[device] },
                        )
                        &&& final(self).last_serial == serial
                    } else {
                        &&& final(self).devices@ == old(self).devices@
                        &&& final(self).last_serial == old(self).last_serial
                    }
                    &&& final(self).seats@ == old(self).seats@
                    &&& final(self).keyboards@ == old(self).keyboards@
                    &&& final(self).sequence == old(self).sequence
                },
                LibeiEvent::Paused { device, serial } => {
                    &&& r == Ok::<LibeiAction, String>(LibeiAction::Nothing)
                    &&& if old(self).devices@.contains_key(device) {
                        &&& final(self).devices@ == old(self).devices@.insert(
                            device,
                            DeviceRecord { state: DeviceState::Paused, ..old(self).devices@[device] },
                        )
                        &&& final(self).last_serial == serial
                    } else {
                        &&& final(self).devices@ == old(self).devices@
                        &&& final(self).last_serial == old(self).last_serial
                    }
                    &&& final(self).seats@ == old(self).seats@
                    &&& final(self).keyboards@ == old(self).keyboards@
                    &&& final(self).sequence == old(self).sequence
                },
                LibeiEvent::KeyboardDestroyed { keyboard } => {
                    &&& r == Ok::<LibeiAction, String>(LibeiAction::Nothing)
                    &&& final(self).keyboards@ == old(self).keyboards@.remove(keyboard)
                    &&& final(self).seats@ == old(self).seats@
                    &&& final(self).devices@ == old(self).devices@
                    &&& final(self).sequence == old(self).sequence
                    &&& final(self).last_serial == old(self).last_serial
                },
                LibeiEvent::Keymap { keyboard, xkb } => {
                    &&& if xkb {
                        r == Ok::<LibeiAction, String>(LibeiAction::LoadKeymap { keyboard })
                    } else {
                        r matches Err(m) && m@ == "keymap is not xkb"@
                    }
                    &&& unchanged(&*final(self), &*old(self))
                },
                LibeiEvent::Other => {
                    &&& r == Ok::<LibeiAction, String>(LibeiAction::Nothing)
                    &&& unchanged(&*final(self), &*old(self))
                },
            },
    {
        match ev {
            LibeiEvent::Connected { serial } => {
                self.last_serial = serial;
                self.sequence = serial;
                Ok(LibeiAction::Nothing)
            },
            LibeiEvent::Disconnected { last_serial, message } => {
                self.seats.clear();
                self.devices.clear();
                self.keyboards.clear();
                self.sequence = 0;
                self.last_serial = last_serial;
                Err(message)
            },
            LibeiEvent::SeatAdded { seat } => {
                self.seats.insert(seat, SeatCaps::new());
                Ok(LibeiAction::Nothing)
            },
            LibeiEvent::SeatDestroyed { seat } => {
                self.seats.remove(&seat);
                Ok(LibeiAction::Nothing)
            },
            LibeiEvent::Capability { seat, interface, mask } => {
                if let Some(mut caps) = self.seats.remove(&seat) {
                    caps.insert(interface, mask);
                    self.seats.insert(seat, caps);
                } else {
                    assert(self.seats@ == old(self).seats@);
                }
                Ok(LibeiAction::Nothing)
            },
            LibeiEvent::SeatDone { seat } => {
                match self.seats.get(&seat) {
                    Some(caps) => Ok(LibeiAction::Bind { seat, mask: caps.bind_mask() }),
                    None => Ok(LibeiAction::Nothing),
                }
            },
            LibeiEvent::DeviceAdded { seat, device } => {
                if self.seats.contains_key(&seat) {
                    self.devices.insert(device, DeviceRecord::new());
                }
                Ok(LibeiAction::Nothing)
            },
            LibeiEvent::DeviceDestroyed { device } => {
                self.devices.remove(&device);
                Ok(LibeiAction::Nothing)
            },
            LibeiEvent::DeviceKindKnown { device, kind } => {
                if let Some(d) = self.devices.remove(&device) {
                    self.devices.insert(device, DeviceRecord { kind: Some(kind), ..d });
                } else {
                    assert(self.devices@ == old(self).devices@);
                }
                Ok(LibeiAction::Nothing)
            },
            LibeiEvent::DeviceInterface { device } => {
                if self.devices.contains_key(&device) {
                    Ok(LibeiAction::KeepInterface { device })
                } else {
                    Ok(LibeiAction::Nothing)
                }
            },
            LibeiEvent::Resumed { device, serial } => {
                if let Some(d) = self.devices.remove(&device) {
                    self.last_serial = serial;
                    self.devices.insert(device, DeviceRecord { state: DeviceState::Resumed, ..d });
                } else {
                    assert(self.devices@ == old(self).devices@);
                }
                Ok(LibeiAction::Nothing)
            },
            LibeiEvent::Paused { device, serial } => {
                if let Some(d) = self.devices.remove(&device) {
                    self.last_serial = serial;
                    self.devices.insert(device, DeviceRecord { state: DeviceState::Paused, ..d });
                } else {
                    assert(self.devices@ == old(self).devices@);
                }
                Ok(LibeiAction::Nothing)
            },
            LibeiEvent::KeyboardDestroyed { keyboard } => {
                self.keyboards.remove(&keyboard);
                Ok(LibeiAction::Nothing)
            },
            LibeiEvent::Keymap { keyboard, xkb } => {
                if xkb {
                    Ok(LibeiAction::LoadKeymap { keyboard })
                } else {
                    Err(String::from_str("keymap is not xkb"))
                }
            },
            LibeiEvent::Other => Ok(LibeiAction::Nothing),
        }
    }

    /// Records a keymap that was read and compiled.
    pub fn keymap_loaded(&mut self, keyboard: u64)
        ensures
            final(self).keyboards@ == old(self).keyboards@.insert(keyboard),
            final(self).seats@ == old(self).seats@,
            final(self).devices@ == old(self).devices@,
            final(self).sequence == old(self).sequence,
            final(self).last_serial == old(self).last_serial,
    {
        self.keyboards.insert(keyboard);
    }
}

} // verus!
