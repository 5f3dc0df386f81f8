//! Pointer virtualizer: one state record per physical pointing device.
//!
//! The window system names devices by an opaque physical id; the engine wants
//! a stable small integer per device.  The tracker assigns virtual ids
//! monotonically from 0 and never reuses one, even when a physical id
//! disappears and returns.  Every operation reports the phase-tagged events
//! the engine is owed; the tracker also carries a ghost log of everything it
//! ever emitted, over which the ordering guarantees are stated.
//!
//! Positions travel as the raw bit patterns of the window system's
//! double-precision coordinates; the tracker stores and echoes them without
//! arithmetic.
//!
//! Pressing a button toggles its bit rather than setting it, so a second
//! press with no release in between clears the bit again; releasing always
//! clears it.

use vstd::prelude::*;

verus! {

/// The phase a pointer event is tagged with.
#[derive(Clone, Copy, PartialEq, Eq, Structural, Debug)]
pub enum PointerPhase {
    /// The device is seen for the first time.
    Add,
    /// The device left; its record is discarded.
    Remove,
    /// Motion with no button held.
    Hover,
    /// A button went down.
    Down,
    /// Motion with at least one button held.
    Move,
    /// A button went up.
    Up,
}

/// A mouse button as the window system reports it.
#[derive(Clone, Copy, PartialEq, Eq, Structural, Debug)]
pub enum PointerButton {
    Left,
    Right,
    Middle,
    Other(u16),
}

/// One event owed to the engine.  Every event this tracker emits is for a
/// mouse-kind device and carries no scroll signal.
#[derive(Clone, Copy, PartialEq, Eq, Structural, Debug)]
pub struct PointerEvent {
    /// Engine clock reading supplied by the caller.
    pub timestamp: u64,
    /// The virtual device id.
    pub device: i32,
    pub phase: PointerPhase,
    /// Bit pattern of the double-precision x coordinate.
    pub x_bits: u64,
    /// Bit pattern of the double-precision y coordinate.
    pub y_bits: u64,
    /// The device's held-button mask after this event.
    pub buttons: u64,
}

/// The record kept per physical device currently present.
#[derive(Clone, Copy, PartialEq, Eq, Structural, Debug)]
pub struct DeviceState {
    pub virtual_id: i32,
    pub x_bits: u64,
    pub y_bits: u64,
    pub held_buttons: u64,
}

/// The bit a button occupies in the held mask.  A button index past the mask
/// width has no bit; its events still travel, with the mask unchanged.
pub open spec fn button_mask_spec(b: PointerButton) -> u64 {
    match b {
        PointerButton::Left => 1u64,
        PointerButton::Right => 2u64,
        PointerButton::Middle => 4u64,
        PointerButton::Other(n) => if n < 64 {
            1u64 << (n as u64)
        } else {
            0u64
        },
    }
}

pub fn button_mask(b: PointerButton) -> (r: u64)
    ensures
        r == button_mask_spec(b),
{
    match b {
        PointerButton::Left => 1u64,
        PointerButton::Right => 2u64,
        PointerButton::Middle => 4u64,
        PointerButton::Other(n) => if n < 64 {
            1u64 << (n as u64)
        } else {
            0u64
        },
    }
}

/// The mask a press or release leaves: a press toggles the button's bit, a
/// release clears it.
pub open spec fn next_buttons(held: u64, pressed: bool, b: PointerButton) -> u64 {
    if pressed {
        held ^ button_mask_spec(b)
    } else {
        held & !button_mask_spec(b)
    }
}

/// The event announcing a freshly seen device: position (0, 0), no buttons.
pub open spec fn add_event(id: i32, timestamp: u64) -> PointerEvent {
    PointerEvent {
        timestamp,
        device: id,
        phase: PointerPhase::Add,
        x_bits: 0,
        y_bits: 0,
        buttons: 0,
    }
}

/// Tracks every physical device present and the virtual ids ever assigned.
pub struct PointerTracker {
    /// The devices present, keyed by physical id; each id occurs once.
    pub devices: Vec<(u64, DeviceState)>,
    /// The next virtual id to assign.
    pub next_virtual_id: i32,
    /// Every virtual id ever assigned, in assignment order.
    pub history: Ghost<Seq<i32>>,
    /// Every event ever emitted, in emission order.
    pub log: Ghost<Seq<PointerEvent>>,
    /// Where in the log each virtual id's Add event sits.
    pub add_pos: Ghost<Map<i32, int>>,
}

impl PointerTracker {
    /// A physical device is currently tracked.
    pub open spec fn has_device(self, id: u64) -> bool {
        exists|i: int| 0 <= i < self.devices@.len() && (#[trigger] self.devices@[i]).0 == id
    }

    /// The record index of a tracked physical device.
    pub open spec fn dev_index(self, id: u64) -> int {
        choose|i: int| 0 <= i < self.devices@.len() && (#[trigger] self.devices@[i]).0 == id
    }

    /// The tracker's invariant: physical ids unique, virtual ids assigned in
    /// strictly increasing order and never reused, and the event log opened
    /// with exactly one Add per device before any of its other events.
    pub open spec fn wf(self) -> bool {
        &&& 0 <= self.next_virtual_id
        &&& forall|i: int, j: int|
            0 <= i < j < self.devices@.len() ==> (#[trigger] self.devices@[i]).0 != (
            #[trigger] self.devices@[j]).0
        &&& forall|i: int|
            0 <= i < self.devices@.len() ==> 0 <= (#[trigger] self.devices@[i]).1.virtual_id
                < self.next_virtual_id
        &&& forall|i: int, j: int|
            0 <= i < j < self.history@.len() ==> #[trigger] self.history@[i]
                < #[trigger] self.history@[j]
        &&& forall|i: int|
            0 <= i < self.history@.len() ==> #[trigger] self.history@[i] < self.next_virtual_id
        &&& forall|k: int|
            0 <= k < self.log@.len() ==> 0 <= (#[trigger] self.log@[k]).device
                < self.next_virtual_id
        &&& forall|k: int|
            0 <= k < self.log@.len() && !((#[trigger] self.log@[k]).phase is Add)
                ==> self.add_pos@.dom().contains(self.log@[k].device) && self.add_pos@[
                self.log@[k].device] < k
        &&& forall|id: i32|
            #[trigger] self.add_pos@.dom().contains(id) ==> 0 <= self.add_pos@[id]
                < self.log@.len() && self.log@[self.add_pos@[id]].phase is Add && self.log@[
                self.add_pos@[id]].device == id
        &&& forall|j: int, k: int|
            0 <= j < k < self.log@.len() && (#[trigger] self.log@[j]).phase is Add && (
            #[trigger] self.log@[k]).phase is Add ==> self.log@[j].device != self.log@[k].device
        &&& forall|i: int|
            0 <= i < self.devices@.len() ==> self.add_pos@.dom().contains(
                (#[trigger] self.devices@[i]).1.virtual_id,
            )
    }

    /// An empty tracker: nothing seen, nothing emitted.
    pub fn new() -> (r: PointerTracker)
        ensures
            r.wf(),
            r.devices@.len() == 0,
            r.next_virtual_id == 0,
            r.history@ == Seq::<i32>::empty(),
            r.log@ == Seq::<PointerEvent>::empty(),
    {
        PointerTracker {
            devices: Vec::new(),
            next_virtual_id: 0,
            history: Ghost(Seq::empty()),
            log: Ghost(Seq::empty()),
            add_pos: Ghost(Map::empty()),
        }
    }

    /// The index of a physical device's record.
    fn find(&self, device: u64) -> (r: Option<usize>)
        ensures
            match r {
                Some(i) => 0 <= i < self.devices@.len() && self.devices@[i as int].0 == device,
                None => !self.has_device(device),
            },
    {
        let mut i: usize = 0;
        while i < self.devices.len()
            invariant
                i <= self.devices@.len(),
                forall|j: int| 0 <= j < i ==> (#[trigger] self.devices@[j]).0 != device,
            decreases self.devices@.len() - i,
        {
            if self.devices[i].0 == device {
                return Some(i);
            }
            i = i + 1;
        }
        None
    }

    /// Make sure a physical device is tracked, and say where its record is.
    /// A fresh device gets the next virtual id, position (0, 0) and no
    /// buttons, and its Add event is emitted.
    #[verifier::rlimit(50)]
    fn ensure_device(&mut self, device: u64, timestamp: u64) -> (r: (Option<PointerEvent>, usize))
        requires
            old(self).wf(),
            old(self).next_virtual_id < i32::MAX,
        ensures
            final(self).wf(),
            final(self).devices@[r.1 as int].0 == device,
            0 <= r.1 < final(self).devices@.len(),
            old(self).has_device(device) ==> {
                &&& r.0 is None
                &&& r.1 == old(self).dev_index(device)
                &&& final(self).devices@ == old(self).devices@
                &&& final(self).next_virtual_id == old(self).next_virtual_id
                &&& final(self).history@ == old(self).history@
                &&& final(self).log@ == old(self).log@
            },
            !old(self).has_device(device) ==> {
                &&& r.0 == Some(add_event(old(self).next_virtual_id, timestamp))
                &&& r.1 == old(self).devices@.len()
                &&& final(self).devices@ == old(self).devices@.push(
                    (
                        device,
                        DeviceState {
                            virtual_id: old(self).next_virtual_id,
                            x_bits: 0,
                            y_bits: 0,
                            held_buttons: 0,
                        },
                    ),
                )
                &&& final(self).next_virtual_id == old(self).next_virtual_id + 1
                &&& final(self).history@ == old(self).history@.push(old(self).next_virtual_id)
                &&& final(self).log@ == old(self).log@.push(
                    add_event(old(self).next_virtual_id, timestamp),
                )
            },
    {
        match self.find(device) {
            Some(i) => {
                proof {
                    let w = self.dev_index(device);
                    assert(0 <= w < self.devices@.len() && self.devices@[w].0 == device);
                    if w != i as int {
                        assert(false);
                    }
                }
                (None, i)
            },
            None => {
                let id = self.next_virtual_id;
                let ev = PointerEvent {
                    timestamp,
                    device: id,
                    phase: PointerPhase::Add,
                    x_bits: 0,
                    y_bits: 0,
                    buttons: 0,
                };
                let i = self.devices.len();
                self.devices.push(
                    (device, DeviceState { virtual_id: id, x_bits: 0, y_bits: 0, held_buttons: 0 }),
                );
                self.next_virtual_id = id + 1;
                proof {
                    self.history@ = self.history@.push(id);
                    self.add_pos@ = self.add_pos@.insert(id, self.log@.len() as int);
                    self.log@ = self.log@.push(ev);
                    lemma_wf_after_add(*old(self), *self, device, timestamp);
                }
                (Some(ev), i)
            },
        }
    }

    /// Make sure a device is tracked.  A fresh device's Add event is
    /// returned; a known device is left untouched.
    #[verifier::rlimit(50)]
    pub fn touch(&mut self, device: u64, timestamp: u64) -> (r: Option<PointerEvent>)
        requires
            old(self).wf(),
            old(self).next_virtual_id < i32::MAX,
        ensures
            final(self).wf(),
            old(self).has_device(device) ==> {
                &&& r is None
                &&& final(self).devices@ == old(self).devices@
                &&& final(self).next_virtual_id == old(self).next_virtual_id
                &&& final(self).history@ == old(self).history@
                &&& final(self).log@ == old(self).log@
            },
            !old(self).has_device(device) ==> {
                &&& r == Some(add_event(old(self).next_virtual_id, timestamp))
                &&& final(self).devices@ == old(self).devices@.push(
                    (
                        device,
                        DeviceState {
                            virtual_id: old(self).next_virtual_id,
                            x_bits: 0,
                            y_bits: 0,
                            held_buttons: 0,
                        },
                    ),
                )
                &&& final(self).next_virtual_id == old(self).next_virtual_id + 1
                &&& final(self).history@ == old(self).history@.push(old(self).next_virtual_id)
                &&& final(self).log@ == old(self).log@.push(
                    add_event(old(self).next_virtual_id, timestamp),
                )
            },
    {
        let (added, _i) = self.ensure_device(device, timestamp);
        added
    }

    /// A button went down or up on a device.  A fresh device is announced
    /// with an Add event first.  The new mask is the press-toggle (or
    /// release-clear) of the button's bit, and the Down or Up event carries
    /// it.
    #[verifier::rlimit(50)]
    pub fn button_event(
        &mut self,
        device: u64,
        pressed: bool,
        button: PointerButton,
        timestamp: u64,
    ) -> (evs: Vec<PointerEvent>)
        requires
            old(self).wf(),
            old(self).next_virtual_id < i32::MAX,
        ensures
            final(self).wf(),
            old(self).has_device(device) ==> {
                let i = old(self).dev_index(device);
                let st = old(self).devices@[i].1;
                let nb = next_buttons(st.held_buttons, pressed, button);
                let ev = PointerEvent {
                    timestamp,
                    device: st.virtual_id,
                    phase: if pressed {
                        PointerPhase::Down
                    } else {
                        PointerPhase::Up
                    },
                    x_bits: st.x_bits,
                    y_bits: st.y_bits,
                    buttons: nb,
                };
                &&& evs@ == seq![ev]
                &&& final(self).devices@ == old(self).devices@.update(
                    i,
                    (
                        device,
                        DeviceState {
                            virtual_id: st.virtual_id,
                            x_bits: st.x_bits,
                            y_bits: st.y_bits,
                            held_buttons: nb,
                        },
                    ),
                )
                &&& final(self).next_virtual_id == old(self).next_virtual_id
                &&& final(self).history@ == old(self).history@
                &&& final(self).log@ == old(self).log@.push(ev)
            },
            !old(self).has_device(device) ==> {
                let id = old(self).next_virtual_id;
                let nb = next_buttons(0, pressed, button);
                let ev = PointerEvent {
                    timestamp,
                    device: id,
                    phase: if pressed {
                        PointerPhase::Down
                    } else {
                        PointerPhase::Up
                    },
                    x_bits: 0,
                    y_bits: 0,
                    buttons: nb,
                };
                &&& evs@ == seq![add_event(id, timestamp), ev]
                &&& final(self).devices@ == old(self).devices@.push(
                    (
                        device,
                        DeviceState { virtual_id: id, x_bits: 0, y_bits: 0, held_buttons: nb },
                    ),
                )
                &&& final(self).next_virtual_id == old(self).next_virtual_id + 1
                &&& final(self).history@ == old(self).history@.push(id)
                &&& final(self).log@ == old(self).log@ + seq![add_event(id, timestamp), ev]
            },
    {
        let (added, i) = self.ensure_device(device, timestamp);
        let ghost mid = *self;
        let st = self.devices[i].1;
        let mask = button_mask(button);
        let nb = if pressed {
            st.held_buttons ^ mask
        } else {
            st.held_buttons & !mask
        };
        let ev = PointerEvent {
            timestamp,
            device: st.virtual_id,
            phase: if pressed {
                PointerPhase::Down
            } else {
                PointerPhase::Up
            },
            x_bits: st.x_bits,
            y_bits: st.y_bits,
            buttons: nb,
        };
        self.devices[i] = (
            device,
            DeviceState {
                virtual_id: st.virtual_id,
                x_bits: st.x_bits,
                y_bits: st.y_bits,
                held_buttons: nb,
            },
        );
        proof {
            self.log@ = self.log@.push(ev);
            lemma_wf_after_update(mid, *self, i as int, ev);
            if !old(self).has_device(device) {
                assert(final(self).devices@ =~= old(self).devices@.push(
                    (
                        device,
                        DeviceState {
                            virtual_id: mid.devices@[i as int].1.virtual_id,
                            x_bits: 0,
                            y_bits: 0,
                            held_buttons: nb,
                        },
                    ),
                ));
            }
        }
        let mut evs: Vec<PointerEvent> = Vec::new();
        match added {
            Some(a) => {
                evs.push(a);
            },
            None => {},
        }
        evs.push(ev);
        proof {
            if !old(self).has_device(device) {
                assert(self.log@ =~= old(self).log@ + seq![
                    add_event(old(self).next_virtual_id, timestamp),
                    ev,
                ]);
                assert(evs@ =~= seq![add_event(old(self).next_virtual_id, timestamp), ev]);
            } else {
                assert(evs@ =~= seq![ev]);
            }
        }
        evs
    }

    /// The pointer moved.  A fresh device is announced with an Add event
    /// first; the motion event is Hover with no button held, Move otherwise,
    /// and carries the new position.
    #[verifier::rlimit(50)]
    pub fn move_to(&mut self, device: u64, x_bits: u64, y_bits: u64, timestamp: u64) -> (evs: Vec<
        PointerEvent,
    >)
        requires
            old(self).wf(),
            old(self).next_virtual_id < i32::MAX,
        ensures
            final(self).wf(),
            old(self).has_device(device) ==> {
                let i = old(self).dev_index(device);
                let st = old(self).devices@[i].1;
                let ev = PointerEvent {
                    timestamp,
                    device: st.virtual_id,
                    phase: if st.held_buttons == 0 {
                        PointerPhase::Hover
                    } else {
                        PointerPhase::Move
                    },
                    x_bits,
                    y_bits,
                    buttons: st.held_buttons,
                };
                &&& evs@ == seq![ev]
                &&& final(self).devices@ == old(self).devices@.update(
                    i,
                    (
                        device,
                        DeviceState {
                            virtual_id: st.virtual_id,
                            x_bits,
                            y_bits,
                            held_buttons: st.held_buttons,
                        },
                    ),
                )
                &&& final(self).next_virtual_id == old(self).next_virtual_id
                &&& final(self).history@ == old(self).history@
                &&& final(self).log@ == old(self).log@.push(ev)
            },
            !old(self).has_device(device) ==> {
                let id = old(self).next_virtual_id;
                let ev = PointerEvent {
                    timestamp,
                    device: id,
                    phase: PointerPhase::Hover,
                    x_bits,
                    y_bits,
                    buttons: 0,
                };
                &&& evs@ == seq![add_event(id, timestamp), ev]
                &&& final(self).devices@ == old(self).devices@.push(
                    (device, DeviceState { virtual_id: id, x_bits, y_bits, held_buttons: 0 }),
                )
                &&& final(self).next_virtual_id == old(self).next_virtual_id + 1
                &&& final(self).history@ == old(self).history@.push(id)
                &&& final(self).log@ == old(self).log@ + seq![add_event(id, timestamp), ev]
            },
    {
        let (added, i) = self.ensure_device(device, timestamp);
        let ghost mid = *self;
        let st = self.devices[i].1;
        let ev = PointerEvent {
            timestamp,
            device: st.virtual_id,
            phase: if st.held_buttons == 0 {
                PointerPhase::Hover
            } else {
                PointerPhase::Move
            },
            x_bits,
            y_bits,
            buttons: st.held_buttons,
        };
        self.devices[i] = (
            device,
            DeviceState {
                virtual_id: st.virtual_id,
                x_bits,
                y_bits,
                held_buttons: st.held_buttons,
            },
        );
        proof {
            self.log@ = self.log@.push(ev);
            lemma_wf_after_update(mid, *self, i as int, ev);
            if !old(self).has_device(device) {
                assert(final(self).devices@ =~= old(self).devices@.push(
                    (
                        device,
                        DeviceState {
                            virtual_id: mid.devices@[i as int].1.virtual_id,
                            x_bits,
                            y_bits,
                            held_buttons: 0,
                        },
                    ),
                ));
            }
        }
        let mut evs: Vec<PointerEvent> = Vec::new();
        match added {
            Some(a) => {
                evs.push(a);
            },
            None => {},
        }
        evs.push(ev);
        proof {
            if !old(self).has_device(device) {
                assert(self.log@ =~= old(self).log@ + seq![
                    add_event(old(self).next_virtual_id, timestamp),
                    ev,
                ]);
                assert(evs@ =~= seq![add_event(old(self).next_virtual_id, timestamp), ev]);
            } else {
                assert(evs@ =~= seq![ev]);
            }
        }
        evs
    }

    /// The device left.  A tracked device's Remove event (with its last
    /// position and mask) is emitted and its record dropped; an unknown
    /// device is a documented no-op.
    #[verifier::rlimit(50)]
    pub fn leave(&mut self, device: u64, timestamp: u64) -> (r: Option<PointerEvent>)
        requires
            old(self).wf(),
        ensures
            final(self).wf(),
            old(self).has_device(device) ==> {
                let i = old(self).dev_index(device);
                let st = old(self).devices@[i].1;
                let ev = PointerEvent {
                    timestamp,
                    device: st.virtual_id,
                    phase: PointerPhase::Remove,
                    x_bits: st.x_bits,
                    y_bits: st.y_bits,
                    buttons: st.held_buttons,
                };
                &&& r == Some(ev)
                &&& final(self).devices@ == old(self).devices@.remove(i)
                &&& final(self).next_virtual_id == old(self).next_virtual_id
                &&& final(self).history@ == old(self).history@
                &&& final(self).log@ == old(self).log@.push(ev)
            },
            !old(self).has_device(device) ==> {
                &&& r is None
                &&& final(self).devices@ == old(self).devices@
                &&& final(self).next_virtual_id == old(self).next_virtual_id
                &&& final(self).history@ == old(self).history@
                &&& final(self).log@ == old(self).log@
            },
    {
        match self.find(device) {
            Some(i) => {
                proof {
                    let w = self.dev_index(device);
                    assert(0 <= w < self.devices@.len() && self.devices@[w].0 == device);
                    if w != i as int {
                        assert(false);
                    }
                }
                let st = self.devices[i].1;
                let ev = PointerEvent {
                    timestamp,
                    device: st.virtual_id,
                    phase: PointerPhase::Remove,
                    x_bits: st.x_bits,
                    y_bits: st.y_bits,
                    buttons: st.held_buttons,
                };
                let ghost pre = *self;
                self.devices.remove(i);
                proof {
                    self.log@ = self.log@.push(ev);
                    lemma_wf_after_remove(pre, *self, i as int, ev);
                }
                Some(ev)
            },
            None => None,
        }
    }
}
/// The tracker after announcing a fresh device stays well formed.
proof fn lemma_wf_after_add(pre: PointerTracker, post: PointerTracker, device: u64, timestamp: u64)
    requires
        pre.wf(),
        pre.next_virtual_id < i32::MAX,
        !pre.has_device(device),
        post.devices@ == pre.devices@.push(
            (
                device,
                DeviceState {
                    virtual_id: pre.next_virtual_id,
                    x_bits: 0,
                    y_bits: 0,
                    held_buttons: 0,
                },
            ),
        ),
        post.next_virtual_id == pre.next_virtual_id + 1,
        post.history@ == pre.history@.push(pre.next_virtual_id),
        post.add_pos@ == pre.add_pos@.insert(pre.next_virtual_id, pre.log@.len() as int),
        post.log@ == pre.log@.push(add_event(pre.next_virtual_id, timestamp)),
    ensures
        post.wf(),
{
    let d0 = pre.devices@;
    let d1 = post.devices@;
    let l0 = pre.log@;
    let l1 = post.log@;
    let n0 = pre.next_virtual_id;
    assert forall|i: int, j: int| 0 <= i < j < d1.len() implies (#[trigger] d1[i]).0 != (
    #[trigger] d1[j]).0 by {
        if j == d0.len() {
            assert(d1[i] == d0[i]);
            if d0[i].0 == device {
                assert(0 <= i < d0.len() && (#[trigger] d0[i]).0 == device);
            }
        }
    }
    assert forall|k: int|
        0 <= k < l1.len() && !((#[trigger] l1[k]).phase is Add) implies post.add_pos@.dom().contains(
        l1[k].device,
    ) && post.add_pos@[l1[k].device] < k by {
        assert(k < l0.len() && l1[k] == l0[k]);
        assert(l0[k].device < n0);
    }
    assert forall|id: i32| #[trigger] post.add_pos@.dom().contains(id) implies 0 <= post.add_pos@[id]
        < l1.len() && l1[post.add_pos@[id]].phase is Add && l1[post.add_pos@[id]].device == id by {
        if id == n0 {
            assert(l1[l0.len() as int] == add_event(n0, timestamp));
        } else {
            assert(pre.add_pos@.dom().contains(id));
            assert(l1[pre.add_pos@[id]] == l0[pre.add_pos@[id]]);
        }
    }
    assert forall|j: int, k: int|
        0 <= j < k < l1.len() && (#[trigger] l1[j]).phase is Add && (#[trigger] l1[k]).phase
            is Add implies l1[j].device != l1[k].device by {
        if k == l0.len() {
            assert(l1[j] == l0[j]);
            assert(l0[j].device < n0);
        }
    }
    assert forall|i: int| 0 <= i < d1.len() implies post.add_pos@.dom().contains(
        (#[trigger] d1[i]).1.virtual_id,
    ) by {
        if i < d0.len() {
            assert(d1[i] == d0[i]);
        }
    }
}

/// The tracker after re-recording a tracked device and emitting one of its
/// non-Add events stays well formed.
proof fn lemma_wf_after_update(pre: PointerTracker, post: PointerTracker, i: int, ev: PointerEvent)
    requires
        pre.wf(),
        0 <= i < pre.devices@.len(),
        !(ev.phase is Add),
        ev.device == pre.devices@[i].1.virtual_id,
        post.devices@ == pre.devices@.update(i, (pre.devices@[i].0, post.devices@[i].1)),
        post.devices@[i].1.virtual_id == pre.devices@[i].1.virtual_id,
        post.next_virtual_id == pre.next_virtual_id,
        post.history@ == pre.history@,
        post.add_pos@ == pre.add_pos@,
        post.log@ == pre.log@.push(ev),
    ensures
        post.wf(),
{
    let d0 = pre.devices@;
    let d1 = post.devices@;
    let l0 = pre.log@;
    let l1 = post.log@;
    assert forall|k: int|
        0 <= k < l1.len() && !((#[trigger] l1[k]).phase is Add) implies post.add_pos@.dom().contains(
        l1[k].device,
    ) && post.add_pos@[l1[k].device] < k by {
        if k < l0.len() {
            assert(l1[k] == l0[k]);
        } else {
            assert(l1[k] == ev);
            assert(pre.add_pos@.dom().contains(ev.device));
            assert(pre.add_pos@[ev.device] < l0.len());
        }
    }
    assert forall|id: i32| #[trigger] post.add_pos@.dom().contains(id) implies 0 <= post.add_pos@[id]
        < l1.len() && l1[post.add_pos@[id]].phase is Add && l1[post.add_pos@[id]].device == id by {
        assert(l1[pre.add_pos@[id]] == l0[pre.add_pos@[id]]);
    }
    assert forall|j: int, k: int|
        0 <= j < k < l1.len() && (#[trigger] l1[j]).phase is Add && (#[trigger] l1[k]).phase
            is Add implies l1[j].device != l1[k].device by {
        assert(l1[j] == l0[j]);
        if k < l0.len() {
            assert(l1[k] == l0[k]);
        } else {
            assert(l1[k] == ev);
        }
    }
    assert forall|i2: int| 0 <= i2 < d1.len() implies post.add_pos@.dom().contains(
        (#[trigger] d1[i2]).1.virtual_id,
    ) by {
        if i2 != i {
            assert(d1[i2] == d0[i2]);
        }
    }
}

/// The tracker after dropping a tracked device and emitting its Remove event
/// stays well formed.
proof fn lemma_wf_after_remove(pre: PointerTracker, post: PointerTracker, i: int, ev: PointerEvent)
    requires
        pre.wf(),
        0 <= i < pre.devices@.len(),
        ev.phase is Remove,
        ev.device == pre.devices@[i].1.virtual_id,
        post.devices@ == pre.devices@.remove(i),
        post.next_virtual_id == pre.next_virtual_id,
        post.history@ == pre.history@,
        post.add_pos@ == pre.add_pos@,
        post.log@ == pre.log@.push(ev),
    ensures
        post.wf(),
{
    let d0 = pre.devices@;
    let d1 = post.devices@;
    let l0 = pre.log@;
    let l1 = post.log@;
    assert forall|i2: int, j2: int| 0 <= i2 < j2 < d1.len() implies (#[trigger] d1[i2]).0 != (
    #[trigger] d1[j2]).0 by {
        let io = if i2 < i { i2 } else { i2 + 1 };
        let jo = if j2 < i { j2 } else { j2 + 1 };
        assert(d1[i2] == d0[io]);
        assert(d1[j2] == d0[jo]);
    }
    assert forall|i2: int| 0 <= i2 < d1.len() implies 0 <= (#[trigger] d1[i2]).1.virtual_id
        < post.next_virtual_id by {
        let io = if i2 < i { i2 } else { i2 + 1 };
        assert(d1[i2] == d0[io]);
    }
    assert forall|k: int|
        0 <= k < l1.len() && !((#[trigger] l1[k]).phase is Add) implies post.add_pos@.dom().contains(
        l1[k].device,
    ) && post.add_pos@[l1[k].device] < k by {
        if k < l0.len() {
            assert(l1[k] == l0[k]);
        } else {
            assert(l1[k] == ev);
            assert(pre.add_pos@.dom().contains(ev.device));
            assert(pre.add_pos@[ev.device] < l0.len());
        }
    }
    assert forall|id: i32| #[trigger] post.add_pos@.dom().contains(id) implies 0 <= post.add_pos@[id]
        < l1.len() && l1[post.add_pos@[id]].phase is Add && l1[post.add_pos@[id]].device == id by {
        assert(l1[pre.add_pos@[id]] == l0[pre.add_pos@[id]]);
    }
    assert forall|j: int, k: int|
        0 <= j < k < l1.len() && (#[trigger] l1[j]).phase is Add && (#[trigger] l1[k]).phase
            is Add implies l1[j].device != l1[k].device by {
        assert(l1[j] == l0[j]);
        if k < l0.len() {
            assert(l1[k] == l0[k]);
        } else {
            assert(l1[k] == ev);
        }
    }
    assert forall|i2: int| 0 <= i2 < d1.len() implies post.add_pos@.dom().contains(
        (#[trigger] d1[i2]).1.virtual_id,
    ) by {
        let io = if i2 < i { i2 } else { i2 + 1 };
        assert(d1[i2] == d0[io]);
    }
}

/// Every bit of a held-button mask is the mask of some recognized button:
/// bit n is exactly what a press of button n sets.
pub proof fn lemma_held_bits_recognized(t: PointerTracker, i: int, n: u64)
    requires
        t.wf(),
        0 <= i < t.devices@.len(),
        n < 64,
        t.devices@[i].1.held_buttons & (1u64 << n) != 0,
    ensures
        exists|b: PointerButton| #[trigger] button_mask_spec(b) == (1u64 << n),
{
    assert((n as u16) < 64 && (((n as u16)) as u64) == n) by (bit_vector)
        requires
            n < 64,
    ;
    assert(button_mask_spec(PointerButton::Other(n as u16)) == (1u64 << n));
}

/// Virtual ids are assigned in strictly increasing order over the tracker's
/// whole lifetime, so an id is never reused, even when a physical device
/// returns after removal.
pub proof fn lemma_virtual_ids_strictly_increasing(t: PointerTracker, i: int, j: int)
    requires
        t.wf(),
        0 <= i < j < t.history@.len(),
    ensures
        t.history@[i] < t.history@[j],
{
}

/// The first event ever emitted for a device is its Add: any Hover, Move,
/// Down, Up or Remove event is preceded in the log by an Add for the same
/// virtual id.
pub proof fn lemma_add_precedes_other_events(t: PointerTracker, k: int)
    requires
        t.wf(),
        0 <= k < t.log@.len(),
        !(t.log@[k].phase is Add),
    ensures
        exists|j: int|
            0 <= j < k && (#[trigger] t.log@[j]).device == t.log@[k].device && t.log@[j].phase
                is Add,
{
    let d = t.log@[k].device;
    let j = t.add_pos@[d];
    assert(0 <= j < k && (#[trigger] t.log@[j]).device == d && t.log@[j].phase is Add);
}

/// Exactly one Add is ever emitted per virtual id.
pub proof fn lemma_add_emitted_once(t: PointerTracker, j: int, k: int)
    requires
        t.wf(),
        0 <= j < k < t.log@.len(),
        t.log@[j].phase is Add,
        t.log@[k].phase is Add,
    ensures
        t.log@[j].device != t.log@[k].device,
{
}

} // verus!
