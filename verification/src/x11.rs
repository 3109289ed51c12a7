use vstd::prelude::*;

use crate::events::{Key, RawEvent};

verus! {

/// X11's `KeyPress` event type.
pub const KEY_PRESS: i32 = 2;
/// X11's `KeyRelease` event type.
pub const KEY_RELEASE: i32 = 3;
/// The number of key codes the tracker has room for.
pub const KEY_CODES: usize = 255;

/// The event a key press produces: with detectable auto-repeat, a press
/// of a key that is already down is a repeat.
pub open spec fn press_event(down: Set<u32>, keycode: u32, key: Key, time_ms: u64) -> RawEvent {
    if down.contains(keycode) {
        RawEvent::KeyRepeat { key, timestamp_ms: time_ms }
    } else {
        RawEvent::KeyDown { key, timestamp_ms: time_ms }
    }
}

/// Remembers which key codes are held down, to tell presses from repeats.
pub struct KeyTracker {
    key_down: Vec<bool>,
}

impl View for KeyTracker {
    type V = Set<u32>;

    /// The key codes that are down.
    closed spec fn view(&self) -> Set<u32> {
        Set::new(|k: u32| k < KEY_CODES && self.key_down@[k as int])
    }
}

impl KeyTracker {
    /// The tracker has a slot for every key code.
    pub closed spec fn wf(&self) -> bool {
        self.key_down@.len() == KEY_CODES
    }

    /// A tracker with no key down.
    pub fn new() -> (t: KeyTracker)
        ensures
            t.wf(),
            t@ == Set::<u32>::empty(),
    {
        let mut key_down: Vec<bool> = Vec::new();
        let mut i: usize = 0;
        while i < KEY_CODES
            invariant
                i <= KEY_CODES,
                key_down@.len() == i,
                forall|j: int| 0 <= j < i ==> !key_down@[j],
            decreases KEY_CODES - i,
        {
            key_down.push(false);
            i = i + 1;
        }
        let t = KeyTracker { key_down };
        assert(t@ =~= Set::<u32>::empty());
        t
    }

    /// Whether `keycode` is down.
    pub fn is_down(&self, keycode: u32) -> (b: bool)
        requires
            self.wf(),
            keycode < KEY_CODES,
        ensures
            b == self@.contains(keycode),
    {
        self.key_down[keycode as usize]
    }

    fn set_key(&mut self, keycode: u32, down: bool)
        requires
            old(self).wf(),
            keycode < KEY_CODES,
        ensures
            final(self).wf(),
            down ==> final(self)@ == old(self)@.insert(keycode),
            !down ==> final(self)@ == old(self)@.remove(keycode),
    {
        let ghost before = self@;
        self.key_down.set(keycode as usize, down);
        if down {
            assert(self@ =~= before.insert(keycode));
        } else {
            assert(self@ =~= before.remove(keycode));
        }
    }

    /// A `KeyPress` of `keycode`, which reads as `key`, at `time_ms`: the key
    /// is down afterwards.
    pub fn key_press(&mut self, keycode: u32, key: Key, time_ms: u64) -> (e: RawEvent)
        requires
            old(self).wf(),
            keycode < KEY_CODES,
        ensures
            final(self).wf(),
            e == press_event(old(self)@, keycode, key, time_ms),
            final(self)@ == old(self)@.insert(keycode),
    {
        let repeat = self.is_down(keycode);
        self.set_key(keycode, true);
        if repeat {
            RawEvent::KeyRepeat { key, timestamp_ms: time_ms }
        } else {
            RawEvent::KeyDown { key, timestamp_ms: time_ms }
        }
    }

    /// A `KeyRelease` of `keycode`: the key is up afterwards.
    pub fn key_release(&mut self, keycode: u32, key: Key, time_ms: u64) -> (e: RawEvent)
        requires
            old(self).wf(),
            keycode < KEY_CODES,
        ensures
            final(self).wf(),
            e == (RawEvent::KeyUp { key, timestamp_ms: time_ms }),
            final(self)@ == old(self)@.remove(keycode),
    {
        self.set_key(keycode, false);
        RawEvent::KeyUp { key, timestamp_ms: time_ms }
    }

    /// One step of the X11 event loop: key presses and releases produce an
    /// event; every other event type is ignored.
    pub fn handle_event(&mut self, event_type: i32, keycode: u32, key: Key, time_ms: u64) -> (e:
        Option<RawEvent>)
        requires
            old(self).wf(),
            event_type == KEY_PRESS || event_type == KEY_RELEASE ==> keycode < KEY_CODES,
        ensures
            final(self).wf(),
            event_type == KEY_PRESS ==> e == Some(press_event(old(self)@, keycode, key, time_ms))
                && final(self)@ == old(self)@.insert(keycode),
            event_type == KEY_RELEASE ==> e == Some(RawEvent::KeyUp { key, timestamp_ms: time_ms })
                && final(self)@ == old(self)@.remove(keycode),
            event_type != KEY_PRESS && event_type != KEY_RELEASE ==> e is None && final(self)@
                == old(self)@,
    {
        if event_type == KEY_PRESS {
            Some(self.key_press(keycode, key, time_ms))
        } else if event_type == KEY_RELEASE {
            Some(self.key_release(keycode, key, time_ms))
        } else {
            None
        }
    }
}

/// Pressing a key twice without releasing it makes the second press a
/// repeat.
pub proof fn law_second_press_repeats(down: Set<u32>, keycode: u32, key: Key, t1: u64, t2: u64)
    ensures
        press_event(down.insert(keycode), keycode, key, t2) == (RawEvent::KeyRepeat {
            key,
            timestamp_ms: t2,
        }),
{
}

/// A press after a release is a fresh key press, whatever came before.
pub proof fn law_press_after_release_is_down(down: Set<u32>, keycode: u32, key: Key, t: u64)
    ensures
        press_event(down.remove(keycode), keycode, key, t) == (RawEvent::KeyDown {
            key,
            timestamp_ms: t,
        }),
{
}

/// Presses and releases of one key leave every other key as it was.
pub proof fn law_other_keys_unchanged(down: Set<u32>, keycode: u32, other: u32)
    requires
        other != keycode,
    ensures
        down.insert(keycode).contains(other) == down.contains(other),
        down.remove(keycode).contains(other) == down.contains(other),
{
}

/// `XOpenDisplay`-style status: zero is success, anything else the error code.
pub fn check_error(e: i32) -> (r: Result<(), i32>)
    ensures
        e == 0 ==> r == Ok::<(), i32>(()),
        e != 0 ==> r == Err::<(), i32>(e),
{
    if e != 0 {
        Err(e)
    } else {
        Ok(())
    }
}

/// X11 ids: zero means failure.
pub fn check_not_zero(p: u64) -> (r: Result<u64, ()>)
    ensures
        p == 0 ==> r == Err::<u64, ()>(()),
        p != 0 ==> r == Ok::<u64, ()>(p),
{
    if p == 0 {
        Err(())
    } else {
        Ok(p)
    }
}

} // verus!
