use vstd::prelude::*;

use crate::events::{Key, MouseButton, RawEvent};
use crate::window_id::WindowId;

verus! {

pub const NS_TERMINATE_NOW: u64 = 1;
pub const NS_TERMINATE_CANCEL: u64 = 0;
pub const NS_EVENT_MODIFIER_FLAG_CAPS_LOCK: u64 = 0x10000;
pub const NX_DEVICELSHIFTKEYMASK: u64 = 0x2;
pub const NX_DEVICERSHIFTKEYMASK: u64 = 0x4;
pub const NX_DEVICELCTLKEYMASK: u64 = 0x1;
pub const NX_DEVICERCTLKEYMASK: u64 = 0x2000;
pub const NX_DEVICELALTKEYMASK: u64 = 0x20;
pub const NX_DEVICERALTKEYMASK: u64 = 0x40;
pub const NX_DEVICELCMDKEYMASK: u64 = 0x8;
pub const NX_DEVICERCMDKEYMASK: u64 = 0x10;
/// How many modifier keys the state tracks.
pub const MODIFIER_COUNT: usize = 9;
/// How many of them produce key events: the right command key does not.
pub const REPORTED_MODIFIERS: usize = 8;

/// `NSApplicationActivationPolicy`.
#[derive(Clone, Copy, Debug, PartialEq, Eq, Structural)]
pub enum NSApplicationActivationPolicy {
    NSApplicationActivationPolicyRegular,
}

impl NSApplicationActivationPolicy {
    /// The value AppKit knows the policy by.
    pub fn code(&self) -> (c: i64)
        ensures
            c == 0,
    {
        match self {
            NSApplicationActivationPolicy::NSApplicationActivationPolicyRegular => 0,
        }
    }
}

/// The device-dependent flag of modifier `i`: caps lock, left and right
/// shift, control, alt, and command.
pub open spec fn modifier_mask(i: int) -> u64 {
    if i == 0 {
        NS_EVENT_MODIFIER_FLAG_CAPS_LOCK
    } else if i == 1 {
        NX_DEVICELSHIFTKEYMASK
    } else if i == 2 {
        NX_DEVICERSHIFTKEYMASK
    } else if i == 3 {
        NX_DEVICELCTLKEYMASK
    } else if i == 4 {
        NX_DEVICERCTLKEYMASK
    } else if i == 5 {
        NX_DEVICELALTKEYMASK
    } else if i == 6 {
        NX_DEVICERALTKEYMASK
    } else if i == 7 {
        NX_DEVICELCMDKEYMASK
    } else {
        NX_DEVICERCMDKEYMASK
    }
}

/// The key modifier `i` is reported as.
pub open spec fn modifier_key(i: int) -> Key {
    if i == 0 {
        Key::CapsLock
    } else if i == 1 {
        Key::LeftShift
    } else if i == 2 {
        Key::RightShift
    } else if i == 3 {
        Key::LeftControl
    } else if i == 4 {
        Key::RightControl
    } else if i == 5 {
        Key::LeftAlt
    } else if i == 6 {
        Key::RightAlt
    } else {
        Key::Meta
    }
}

/// Whether modifier `i` is held according to the flags.
pub open spec fn modifier_held(flags: u64, i: int) -> bool {
    flags & modifier_mask(i) == modifier_mask(i)
}

/// A modifier key going down or up.
#[derive(Clone, Copy, Debug, PartialEq, Eq, Structural)]
pub enum KeyTransition {
    Pressed(Key),
    Released(Key),
}

/// The transition of modifier `i` between two flag states, if any.
pub open spec fn modifier_transition(old_flags: u64, new_flags: u64, i: int) -> Seq<KeyTransition> {
    if !modifier_held(old_flags, i) && modifier_held(new_flags, i) {
        seq![KeyTransition::Pressed(modifier_key(i))]
    } else if modifier_held(old_flags, i) && !modifier_held(new_flags, i) {
        seq![KeyTransition::Released(modifier_key(i))]
    } else {
        seq![]
    }
}

/// The transitions of the first `n` modifiers, in order.
pub open spec fn modifier_transitions_upto(old_flags: u64, new_flags: u64, n: int) -> Seq<
    KeyTransition,
>
    decreases n,
{
    if n <= 0 {
        seq![]
    } else {
        modifier_transitions_upto(old_flags, new_flags, n - 1) + modifier_transition(
            old_flags,
            new_flags,
            n - 1,
        )
    }
}

/// The key events a change of modifier flags produces.
pub open spec fn modifier_transitions(old_flags: u64, new_flags: u64) -> Seq<KeyTransition> {
    modifier_transitions_upto(old_flags, new_flags, REPORTED_MODIFIERS as int)
}

fn mask_at(i: usize) -> (m: u64)
    requires
        i < MODIFIER_COUNT,
    ensures
        m == modifier_mask(i as int),
{
    if i == 0 {
        NS_EVENT_MODIFIER_FLAG_CAPS_LOCK
    } else if i == 1 {
        NX_DEVICELSHIFTKEYMASK
    } else if i == 2 {
        NX_DEVICERSHIFTKEYMASK
    } else if i == 3 {
        NX_DEVICELCTLKEYMASK
    } else if i == 4 {
        NX_DEVICERCTLKEYMASK
    } else if i == 5 {
        NX_DEVICELALTKEYMASK
    } else if i == 6 {
        NX_DEVICERALTKEYMASK
    } else if i == 7 {
        NX_DEVICELCMDKEYMASK
    } else {
        NX_DEVICERCMDKEYMASK
    }
}

fn key_at(i: usize) -> (k: Key)
    requires
        i < MODIFIER_COUNT,
    ensures
        k == modifier_key(i as int),
{
    if i == 0 {
        Key::CapsLock
    } else if i == 1 {
        Key::LeftShift
    } else if i == 2 {
        Key::RightShift
    } else if i == 3 {
        Key::LeftControl
    } else if i == 4 {
        Key::RightControl
    } else if i == 5 {
        Key::LeftAlt
    } else if i == 6 {
        Key::RightAlt
    } else {
        Key::Meta
    }
}

/// Which modifiers the flags hold: caps lock, left and right shift,
/// control, alt and command.
pub fn get_modifier_state(modifier_flags: u64) -> (state: [bool; 9])
    ensures
        forall|i: int| 0 <= i < 9 ==> #[trigger] state@[i] == modifier_held(modifier_flags, i),
{
    let mut state = [false; 9];
    let mut i: usize = 0;
    while i < MODIFIER_COUNT
        invariant
            i <= MODIFIER_COUNT,
            forall|j: int| 0 <= j < i ==> #[trigger] state@[j] == modifier_held(modifier_flags, j),
        decreases MODIFIER_COUNT - i,
    {
        let mask = mask_at(i);
        state.set(i, modifier_flags & mask == mask);
        i = i + 1;
    }
    state
}

/// The key transitions between two modifier flag states, for every
/// modifier but the right command key.
pub fn modifier_key_transitions(old_flags: u64, new_flags: u64) -> (v: Vec<KeyTransition>)
    ensures
        v@ == modifier_transitions(old_flags, new_flags),
{
    let old_state = get_modifier_state(old_flags);
    let new_state = get_modifier_state(new_flags);
    let mut v: Vec<KeyTransition> = Vec::new();
    let mut i: usize = 0;
    while i < REPORTED_MODIFIERS
        invariant
            i <= REPORTED_MODIFIERS,
            forall|j: int| 0 <= j < 9 ==> #[trigger] old_state@[j] == modifier_held(old_flags, j),
            forall|j: int| 0 <= j < 9 ==> #[trigger] new_state@[j] == modifier_held(new_flags, j),
            v@ == modifier_transitions_upto(old_flags, new_flags, i as int),
        decreases REPORTED_MODIFIERS - i,
    {
        let was = old_state[i];
        let now = new_state[i];
        let ghost before = v@;
        if !was && now {
            v.push(KeyTransition::Pressed(key_at(i)));
        }
        if was && !now {
            v.push(KeyTransition::Released(key_at(i)));
        }
        assert(v@ =~= before + modifier_transition(old_flags, new_flags, i as int));
        i = i + 1;
    }
    v
}

/// Equal flag states produce no key events.
pub proof fn law_unchanged_flags_no_events(flags: u64)
    ensures
        modifier_transitions(flags, flags) == Seq::<KeyTransition>::empty(),
{
    lemma_same_flags_upto(flags, REPORTED_MODIFIERS as int);
}

proof fn lemma_same_flags_upto(flags: u64, n: int)
    ensures
        modifier_transitions_upto(flags, flags, n) == Seq::<KeyTransition>::empty(),
    decreases n,
{
    if n > 0 {
        lemma_same_flags_upto(flags, n - 1);
        assert(modifier_transitions_upto(flags, flags, n) =~= Seq::<KeyTransition>::empty());
    }
}

/// The other direction of a key transition.
pub open spec fn reversed(t: KeyTransition) -> KeyTransition {
    match t {
        KeyTransition::Pressed(k) => KeyTransition::Released(k),
        KeyTransition::Released(k) => KeyTransition::Pressed(k),
    }
}

/// Going back from the new flags to the old ones produces the same keys in
/// the other direction.
pub proof fn law_reverse_change_mirrors(old_flags: u64, new_flags: u64)
    ensures
        modifier_transitions(new_flags, old_flags) == modifier_transitions(old_flags, new_flags).map_values(
            |t: KeyTransition| reversed(t),
        ),
{
    lemma_mirror_upto(old_flags, new_flags, REPORTED_MODIFIERS as int);
}

proof fn lemma_mirror_upto(a: u64, b: u64, n: int)
    ensures
        modifier_transitions_upto(b, a, n) == modifier_transitions_upto(a, b, n).map_values(
            |t: KeyTransition| reversed(t),
        ),
    decreases n,
{
    if n > 0 {
        lemma_mirror_upto(a, b, n - 1);
        let f = |t: KeyTransition| reversed(t);
        let p = modifier_transitions_upto(a, b, n - 1);
        let q = modifier_transition(a, b, n - 1);
        assert((p + q).map_values(f) =~= p.map_values(f) + q.map_values(f));
        assert(modifier_transition(b, a, n - 1) =~= q.map_values(f));
    }
}

/// The button `otherMouseDown` and `otherMouseUp` report for a button number.
pub fn other_mouse_button(number: i64) -> (b: MouseButton)
    ensures
        b == (if number == 4 {
            MouseButton::Middle
        } else if number == 8 {
            MouseButton::Extra1
        } else if number == 16 {
            MouseButton::Extra2
        } else {
            MouseButton::Unknown
        }),
{
    if number == 4 {
        MouseButton::Middle
    } else if number == 8 {
        MouseButton::Extra1
    } else if number == 16 {
        MouseButton::Extra2
    } else {
        MouseButton::Unknown
    }
}

/// What a change of the cursor's visibility does: the new hidden state and
/// whether `NSCursor` must be told, which keeps its hide and unhide calls
/// balanced.
pub open spec fn cursor_step(hidden: bool, hide: bool) -> (bool, bool) {
    if hide {
        (true, !hidden)
    } else {
        (false, hidden)
    }
}

/// State shared by every window and the application.
pub struct ApplicationData {
    /// The `NSApplication` object's address.
    pub ns_application: usize,
    /// The modifier flags of the last `flagsChanged` event.
    pub modifier_flags: u64,
    /// Whether `NSCursor hide` is in effect.
    pub cursor_hidden: bool,
    /// Set when quit is called: the program should quit.
    pub actually_terminate: bool,
}

impl ApplicationData {
    pub fn new() -> (d: ApplicationData)
        ensures
            d.ns_application == 0,
            d.modifier_flags == 0,
            !d.cursor_hidden,
            !d.actually_terminate,
    {
        ApplicationData {
            ns_application: 0,
            modifier_flags: 0,
            cursor_hidden: false,
            actually_terminate: false,
        }
    }

    /// Hides the cursor; returns whether `NSCursor hide` must be called,
    /// which is only when the cursor is not hidden yet.
    pub fn hide_cursor(&mut self) -> (call_hide: bool)
        ensures
            (final(self).cursor_hidden, call_hide) == cursor_step(old(self).cursor_hidden, true),
            final(self).ns_application == old(self).ns_application,
            final(self).modifier_flags == old(self).modifier_flags,
            final(self).actually_terminate == old(self).actually_terminate,
    {
        if !self.cursor_hidden {
            self.cursor_hidden = true;
            true
        } else {
            false
        }
    }

    /// Shows the cursor; returns whether `NSCursor unhide` must be called,
    /// which is only when the cursor is hidden.
    pub fn show_cursor(&mut self) -> (call_unhide: bool)
        ensures
            (final(self).cursor_hidden, call_unhide) == cursor_step(old(self).cursor_hidden, false),
            final(self).ns_application == old(self).ns_application,
            final(self).modifier_flags == old(self).modifier_flags,
            final(self).actually_terminate == old(self).actually_terminate,
    {
        if self.cursor_hidden {
            self.cursor_hidden = false;
            true
        } else {
            false
        }
    }

    /// Requests termination; it takes effect at the end of the event loop.
    pub fn quit(&mut self)
        ensures
            final(self).actually_terminate,
            final(self).ns_application == old(self).ns_application,
            final(self).modifier_flags == old(self).modifier_flags,
            final(self).cursor_hidden == old(self).cursor_hidden,
    {
        self.actually_terminate = true;
    }

    /// `applicationShouldTerminate:`: terminate now when quit was called;
    /// otherwise cancel and tell the program that a quit was requested.
    pub fn application_should_terminate(&self) -> (r: (u64, Option<RawEvent>))
        ensures
            self.actually_terminate ==> r == (NS_TERMINATE_NOW, None::<RawEvent>),
            !self.actually_terminate ==> r == (NS_TERMINATE_CANCEL, Some(RawEvent::QuitRequested)),
    {
        if self.actually_terminate {
            (NS_TERMINATE_NOW, None)
        } else {
            (NS_TERMINATE_CANCEL, Some(RawEvent::QuitRequested))
        }
    }

    /// `flagsChanged:`: the modifier keys that went down or up, and the new
    /// flags remembered for the next change.
    pub fn flags_changed(&mut self, new_flags: u64) -> (v: Vec<KeyTransition>)
        ensures
            v@ == modifier_transitions(old(self).modifier_flags, new_flags),
            final(self).modifier_flags == new_flags,
            final(self).ns_application == old(self).ns_application,
            final(self).cursor_hidden == old(self).cursor_hidden,
            final(self).actually_terminate == old(self).actually_terminate,
    {
        let v = modifier_key_transitions(self.modifier_flags, new_flags);
        self.modifier_flags = new_flags;
        v
    }
}

/// Runs a sequence of cursor requests (`true` hides, `false` shows) from a
/// cursor state; gives the final state and the `NSCursor` hide calls minus
/// the unhide calls made.
pub open spec fn cursor_run(hidden: bool, requests: Seq<bool>) -> (bool, int)
    decreases requests.len(),
{
    if requests.len() == 0 {
        (hidden, 0)
    } else {
        let (h, calls) = cursor_run(hidden, requests.drop_last());
        let (h2, called) = cursor_step(h, requests.last());
        (h2, calls + if called {
            if requests.last() {
                1int
            } else {
                -1int
            }
        } else {
            0int
        })
    }
}

/// `NSCursor` hide and unhide calls stay balanced: from a visible cursor,
/// any sequence of hide and show requests leaves exactly one outstanding
/// hide when the cursor is hidden, and none when it is shown.
pub proof fn law_cursor_calls_balanced(requests: Seq<bool>)
    ensures
        cursor_run(false, requests).1 == if cursor_run(false, requests).0 {
            1int
        } else {
            0int
        },
    decreases requests.len(),
{
    if requests.len() > 0 {
        law_cursor_calls_balanced(requests.drop_last());
    }
}

/// What the end of a run loop iteration does.
#[derive(Clone, Debug, PartialEq)]
pub enum LoopEndStep {
    Send(RawEvent),
    /// Ask the window's view to draw during a live resize.
    SetNeedsDisplay(WindowId),
    /// Terminate the application.
    Terminate,
    /// Wake the run loop so that it runs again.
    WakeRunLoop,
}

/// The steps for each draw request: a window in live resize is asked to
/// redraw itself, any other window gets a `Draw` event.
pub open spec fn draw_steps(requests: Seq<WindowId>, in_live_resize: Seq<bool>) -> Seq<LoopEndStep>
    decreases requests.len(),
{
    if requests.len() == 0 {
        seq![]
    } else {
        let n = requests.len() - 1;
        draw_steps(requests.drop_last(), in_live_resize.take(n)).push(
            if in_live_resize[n] {
                LoopEndStep::SetNeedsDisplay(requests[n])
            } else {
                LoopEndStep::Send(RawEvent::Draw { window_id: requests[n] })
            },
        )
    }
}

/// The end of a run loop iteration, after `EventsCleared` was sent (the
/// program may request draws while handling it): the pending draws,
/// termination if quit was called, and a wake-up when anything was drawn.
pub open spec fn loop_end_steps(
    requests: Seq<WindowId>,
    in_live_resize: Seq<bool>,
    should_terminate: bool,
) -> Seq<LoopEndStep> {
    draw_steps(requests, in_live_resize) + (
    if should_terminate {
        seq![LoopEndStep::Terminate]
    } else {
        seq![]
    }) + (if requests.len() > 0 {
        seq![LoopEndStep::WakeRunLoop]
    } else {
        seq![]
    })
}

/// Plans the run loop observer's work before the loop waits, once
/// `EventsCleared` was sent, given the pending draw requests and, for
/// each, whether its window is in a live resize.
pub fn control_flow_end_handler(
    draw_requests: &Vec<WindowId>,
    in_live_resize: &Vec<bool>,
    should_terminate: bool,
) -> (steps: Vec<LoopEndStep>)
    requires
        in_live_resize@.len() == draw_requests@.len(),
    ensures
        steps@ == loop_end_steps(draw_requests@, in_live_resize@, should_terminate),
{
    let mut steps: Vec<LoopEndStep> = Vec::new();
    let any_draw_requests = draw_requests.len() > 0;
    let n = draw_requests.len();
    let mut i: usize = 0;
    while i < n
        invariant
            n == draw_requests@.len(),
            n == in_live_resize@.len(),
            i <= n,
            steps@ == draw_steps(draw_requests@.take(i as int), in_live_resize@.take(i as int)),
        decreases n - i,
    {
        let window_id = draw_requests[i];
        let ghost before = steps@;
        if in_live_resize[i] {
            steps.push(LoopEndStep::SetNeedsDisplay(window_id));
        } else {
            steps.push(LoopEndStep::Send(RawEvent::Draw { window_id }));
        }
        proof {
            let r = draw_requests@.take(i + 1);
            let l = in_live_resize@.take(i + 1);
            assert(r.drop_last() =~= draw_requests@.take(i as int));
            assert(l.take(i as int) =~= in_live_resize@.take(i as int));
            assert(steps@ =~= draw_steps(r, l));
        }
        i = i + 1;
    }
    assert(draw_requests@.take(n as int) =~= draw_requests@);
    assert(in_live_resize@.take(n as int) =~= in_live_resize@);
    let ghost drawn = steps@;
    if should_terminate {
        steps.push(LoopEndStep::Terminate);
    }
    let ghost terminated = steps@;
    if any_draw_requests {
        steps.push(LoopEndStep::WakeRunLoop);
    }
    assert(steps@ =~= loop_end_steps(draw_requests@, in_live_resize@, should_terminate));
    steps
}

/// The step a draw request gets: a window in live resize is asked to
/// redraw itself, any other window gets a `Draw` event.
pub open spec fn draw_step(window_id: WindowId, in_live_resize: bool) -> LoopEndStep {
    if in_live_resize {
        LoopEndStep::SetNeedsDisplay(window_id)
    } else {
        LoopEndStep::Send(RawEvent::Draw { window_id })
    }
}

proof fn lemma_draw_steps(requests: Seq<WindowId>, in_live_resize: Seq<bool>)
    requires
        in_live_resize.len() == requests.len(),
    ensures
        draw_steps(requests, in_live_resize).len() == requests.len(),
        forall|i: int|
            0 <= i < requests.len() ==> #[trigger] draw_steps(requests, in_live_resize)[i]
                == draw_step(requests[i], in_live_resize[i]),
    decreases requests.len(),
{
    if requests.len() > 0 {
        let n = requests.len() - 1;
        lemma_draw_steps(requests.drop_last(), in_live_resize.take(n));
        assert forall|i: int| 0 <= i < requests.len() implies #[trigger] draw_steps(
            requests,
            in_live_resize,
        )[i] == draw_step(requests[i], in_live_resize[i]) by {
            if i < n {
                assert(draw_steps(requests.drop_last(), in_live_resize.take(n))[i] == draw_step(
                    requests.drop_last()[i],
                    in_live_resize.take(n)[i],
                ));
            }
        }
    }
}

/// The end of a run loop iteration, once `EventsCleared` was sent: every
/// pending draw request gets one step, in request order (a `Draw` event, or
/// a redraw of the view for a window in live resize); the application is
/// terminated exactly when quit was called; and the run loop is woken
/// exactly when there were draw requests.
pub proof fn law_loop_end_plan(requests: Seq<WindowId>, in_live_resize: Seq<bool>, should_terminate: bool)
    requires
        in_live_resize.len() == requests.len(),
    ensures
        ({
            let s = loop_end_steps(requests, in_live_resize, should_terminate);
            &&& forall|i: int| 0 <= i < requests.len() ==> #[trigger] s[i] == draw_step(requests[i], in_live_resize[i])
            &&& s.contains(LoopEndStep::Terminate) <==> should_terminate
            &&& s.contains(LoopEndStep::WakeRunLoop) <==> requests.len() > 0
            &&& s.len() == requests.len() + (if should_terminate { 1int } else { 0int }) + (if requests.len() > 0 { 1int } else { 0int })
        }),
{
    lemma_draw_steps(requests, in_live_resize);
    let d = draw_steps(requests, in_live_resize);
    let t: Seq<LoopEndStep> = if should_terminate { seq![LoopEndStep::Terminate] } else { seq![] };
    let w: Seq<LoopEndStep> = if requests.len() > 0 { seq![LoopEndStep::WakeRunLoop] } else { seq![] };
    let s = loop_end_steps(requests, in_live_resize, should_terminate);
    assert(s == d + t + w);
    assert forall|i: int| 0 <= i < requests.len() implies #[trigger] s[i] == draw_step(requests[i], in_live_resize[i]) by {
        assert(s[i] == d[i]);
    }
    if s.contains(LoopEndStep::Terminate) {
        let k = choose|k: int| 0 <= k < s.len() && s[k] == LoopEndStep::Terminate;
        if k < d.len() {
            assert(s[k] == d[k]);
            assert(d[k] == draw_step(requests[k], in_live_resize[k]));
        } else if k >= d.len() + t.len() {
            assert(s[k] == w[k - d.len() - t.len()]);
        }
    }
    if should_terminate {
        assert(s[d.len() as int] == LoopEndStep::Terminate);
    }
    if s.contains(LoopEndStep::WakeRunLoop) {
        let k = choose|k: int| 0 <= k < s.len() && s[k] == LoopEndStep::WakeRunLoop;
        if k < d.len() {
            assert(s[k] == d[k]);
            assert(d[k] == draw_step(requests[k], in_live_resize[k]));
        } else if k < d.len() + t.len() {
            assert(s[k] == t[k - d.len()]);
        }
    }
    if requests.len() > 0 {
        assert(s[s.len() - 1] == LoopEndStep::WakeRunLoop);
    }
}

/// The device flag each reported modifier key follows: caps lock 0x10000,
/// left shift 0x2, right shift 0x4, left control 0x1, right control 0x2000,
/// left option 0x20, right option 0x40 and left command 0x8. Other keys
/// follow no flag.
pub open spec fn key_flag(k: Key) -> Option<u64> {
    match k {
        Key::CapsLock => Some(0x10000u64),
        Key::LeftShift => Some(0x2u64),
        Key::RightShift => Some(0x4u64),
        Key::LeftControl => Some(0x1u64),
        Key::RightControl => Some(0x2000u64),
        Key::LeftAlt => Some(0x20u64),
        Key::RightAlt => Some(0x40u64),
        Key::Meta => Some(0x8u64),
        Key::Code(_) => None,
    }
}

proof fn lemma_transitions_contain(old_flags: u64, new_flags: u64, n: int, t: KeyTransition)
    requires
        0 <= n,
    ensures
        modifier_transitions_upto(old_flags, new_flags, n).contains(t) <==> exists|i: int|
            0 <= i < n && #[trigger] modifier_transition(old_flags, new_flags, i).contains(t),
    decreases n,
{
    if n > 0 {
        lemma_transitions_contain(old_flags, new_flags, n - 1, t);
        let a = modifier_transitions_upto(old_flags, new_flags, n - 1);
        let b = modifier_transition(old_flags, new_flags, n - 1);
        let c = a + b;
        assert(c == modifier_transitions_upto(old_flags, new_flags, n));
        if c.contains(t) {
            let k = choose|k: int| 0 <= k < c.len() && c[k] == t;
            if k < a.len() {
                assert(a[k] == t);
                assert(a.contains(t));
            } else {
                assert(b[k - a.len()] == t);
                assert(b.contains(t));
            }
        }
        if a.contains(t) {
            let k = choose|k: int| 0 <= k < a.len() && a[k] == t;
            assert(c[k] == t);
        }
        if b.contains(t) {
            let k = choose|k: int| 0 <= k < b.len() && b[k] == t;
            assert(c[a.len() + k] == t);
        }
    }
}

proof fn lemma_transition_contains(old_flags: u64, new_flags: u64, i: int, k: Key)
    ensures
        modifier_transition(old_flags, new_flags, i).contains(KeyTransition::Pressed(k)) <==> (
        modifier_key(i) == k && !modifier_held(old_flags, i) && modifier_held(new_flags, i)),
        modifier_transition(old_flags, new_flags, i).contains(KeyTransition::Released(k)) <==> (
        modifier_key(i) == k && modifier_held(old_flags, i) && !modifier_held(new_flags, i)),
{
    let s = modifier_transition(old_flags, new_flags, i);
    let p = KeyTransition::Pressed(k);
    let r = KeyTransition::Released(k);
    if !modifier_held(old_flags, i) && modifier_held(new_flags, i) {
        assert(s == seq![KeyTransition::Pressed(modifier_key(i))]);
        if modifier_key(i) == k {
            assert(s[0] == p);
        }
        if s.contains(p) {
            let j = choose|j: int| 0 <= j < s.len() && s[j] == p;
            assert(j == 0);
        }
        if s.contains(r) {
            let j = choose|j: int| 0 <= j < s.len() && s[j] == r;
            assert(s[j] == KeyTransition::Pressed(modifier_key(i)));
        }
    } else if modifier_held(old_flags, i) && !modifier_held(new_flags, i) {
        assert(s == seq![KeyTransition::Released(modifier_key(i))]);
        if modifier_key(i) == k {
            assert(s[0] == r);
        }
        if s.contains(r) {
            let j = choose|j: int| 0 <= j < s.len() && s[j] == r;
            assert(j == 0);
        }
        if s.contains(p) {
            let j = choose|j: int| 0 <= j < s.len() && s[j] == p;
            assert(s[j] == KeyTransition::Released(modifier_key(i)));
        }
    } else {
        assert(s.len() == 0);
    }
}

/// A modifier key goes down exactly when its device flag turns on and up
/// exactly when it turns off; keys that follow no flag never appear. So
/// each reported key belongs to its own flag: the left option key to 0x20,
/// the right option key to 0x40, and so on.
pub proof fn law_modifier_keys_follow_their_flags(old_flags: u64, new_flags: u64, k: Key)
    ensures
        ({
            let t = modifier_transitions(old_flags, new_flags);
            match key_flag(k) {
                Some(m) => {
                    &&& t.contains(KeyTransition::Pressed(k)) <==> (old_flags & m != m && new_flags
                        & m == m)
                    &&& t.contains(KeyTransition::Released(k)) <==> (old_flags & m == m
                        && new_flags & m != m)
                },
                None => !t.contains(KeyTransition::Pressed(k)) && !t.contains(
                    KeyTransition::Released(k),
                ),
            }
        }),
{
    lemma_transitions_contain(old_flags, new_flags, 8, KeyTransition::Pressed(k));
    lemma_transitions_contain(old_flags, new_flags, 8, KeyTransition::Released(k));
    assert forall|i: int| 0 <= i < 8 implies (#[trigger] modifier_transition(old_flags, new_flags, i).contains(
        KeyTransition::Pressed(k),
    ) <==> (modifier_key(i) == k && !modifier_held(old_flags, i) && modifier_held(new_flags, i)))
        && (modifier_transition(old_flags, new_flags, i).contains(KeyTransition::Released(k)) <==> (
        modifier_key(i) == k && modifier_held(old_flags, i) && !modifier_held(new_flags, i))) by {
        lemma_transition_contains(old_flags, new_flags, i, k);
    }
    let idx: int = match k {
        Key::CapsLock => 0,
        Key::LeftShift => 1,
        Key::RightShift => 2,
        Key::LeftControl => 3,
        Key::RightControl => 4,
        Key::LeftAlt => 5,
        Key::RightAlt => 6,
        Key::Meta => 7,
        Key::Code(_) => 8,
    };
    assert forall|i: int| 0 <= i < 8 && modifier_key(i) == k implies i == idx by {}
    if idx < 8 {
        assert(modifier_key(idx) == k);
        assert(key_flag(k) == Some(modifier_mask(idx)));
        lemma_transition_contains(old_flags, new_flags, idx, k);
    }
}

} // verus!
