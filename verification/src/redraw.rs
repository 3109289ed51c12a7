use vstd::prelude::*;

use crate::events::RawEvent;
use crate::window_id::WindowId;

verus! {

broadcast use crate::window_id::group_window_id;

/// The windows waiting for a `Draw` event.
pub struct RedrawRequests {
    windows: Vec<WindowId>,
}

impl View for RedrawRequests {
    type V = Seq<WindowId>;

    closed spec fn view(&self) -> Seq<WindowId> {
        self.windows@
    }
}

/// Redraw requests after asking for a redraw of `id`: a window is listed once.
pub open spec fn with_request(requests: Seq<WindowId>, id: WindowId) -> Seq<WindowId> {
    if requests.contains(id) {
        requests
    } else {
        requests.push(id)
    }
}

/// One `Draw` event per request, in request order.
pub open spec fn draw_events(requests: Seq<WindowId>) -> Seq<RawEvent> {
    requests.map_values(|id: WindowId| RawEvent::Draw { window_id: id })
}

impl RedrawRequests {
    /// No window is listed twice.
    #[verifier::type_invariant]
    spec fn no_window_twice(self) -> bool {
        self.windows@.no_duplicates()
    }

    pub fn new() -> (r: RedrawRequests)
        ensures
            r@ == Seq::<WindowId>::empty(),
    {
        RedrawRequests { windows: Vec::new() }
    }

    /// Whether a redraw of `id` is requested.
    pub fn contains(&self, id: WindowId) -> (b: bool)
        ensures
            b == self@.contains(id),
    {
        let n = self.windows.len();
        let mut i: usize = 0;
        while i < n
            invariant
                n == self.windows@.len(),
                i <= n,
                forall|j: int| 0 <= j < i ==> self.windows@[j] != id,
            decreases n - i,
        {
            if self.windows[i] == id {
                return true;
            }
            i = i + 1;
        }
        false
    }

    /// Requests a `Draw` event for the window; a second request before the
    /// draw changes nothing.
    pub fn redraw_window(&mut self, id: WindowId)
        ensures
            final(self)@ == with_request(old(self)@, id),
            final(self)@.no_duplicates(),
    {
        proof {
            use_type_invariant(&*self);
        }
        if !self.contains(id) {
            let mut windows: Vec<WindowId> = Vec::new();
            std::mem::swap(&mut windows, &mut self.windows);
            windows.push(id);
            proof {
                law_redraw_no_duplicates(old(self)@, id);
            }
            self.windows = windows;
        }
        proof {
            use_type_invariant(&*self);
        }
    }

    /// The initial draw of a new window: a request like any other, so a
    /// window already waiting is not listed again.
    pub fn request_initial_draw(&mut self, id: WindowId)
        ensures
            final(self)@ == with_request(old(self)@, id),
            final(self)@.no_duplicates(),
    {
        self.redraw_window(id);
    }

    /// How many draws are waiting.
    pub fn draw_requests_count(&self) -> (n: usize)
        ensures
            n == self@.len(),
    {
        self.windows.len()
    }

    /// Takes every request: the `Draw` events to send, in request order;
    /// nothing waits afterwards.
    pub fn flush_draw_events(&mut self) -> (events: Vec<RawEvent>)
        ensures
            events@ == draw_events(old(self)@),
            final(self)@ == Seq::<WindowId>::empty(),
    {
        let mut events: Vec<RawEvent> = Vec::new();
        let n = self.windows.len();
        let mut i: usize = 0;
        while i < n
            invariant
                n == self.windows@.len(),
                i <= n,
                events@ == draw_events(self.windows@.take(i as int)),
            decreases n - i,
        {
            let ghost before = events@;
            let e = RawEvent::Draw { window_id: self.windows[i] };
            events.push(e);
            proof {
                vstd::seq::axiom_seq_push_len(before, e);
                assert(events@ =~= draw_events(self.windows@.take(i + 1)));
            }
            i = i + 1;
        }
        assert(self.windows@.take(n as int) =~= self.windows@);
        self.windows = Vec::new();
        assert(self.windows@.no_duplicates());
        events
    }
}

/// Asking twice for the same redraw is the same as asking once.
pub proof fn law_redraw_idempotent(requests: Seq<WindowId>, id: WindowId)
    ensures
        with_request(with_request(requests, id), id) == with_request(requests, id),
{
    if !requests.contains(id) {
        assert(requests.push(id)[requests.len() as int] == id);
    }
}

/// Redraw requests never list a window twice.
pub proof fn law_redraw_no_duplicates(requests: Seq<WindowId>, id: WindowId)
    requires
        requests.no_duplicates(),
    ensures
        with_request(requests, id).no_duplicates(),
{
    if !requests.contains(id) {
        let r = requests.push(id);
        assert forall|i: int, j: int| 0 <= i < r.len() && 0 <= j < r.len() && i != j implies r[i]
            != r[j] by {
            if i == requests.len() {
                assert(requests[j] == r[j]);
            } else if j == requests.len() {
                assert(requests[i] == r[i]);
            }
        }
    }
}

/// The redraw requests left by asking, in turn, for a redraw of each of
/// `ids`, starting with none.
pub open spec fn requests_after(ids: Seq<WindowId>) -> Seq<WindowId>
    decreases ids.len(),
{
    if ids.len() == 0 {
        seq![]
    } else {
        with_request(requests_after(ids.drop_last()), ids.last())
    }
}

/// One `Draw` per window: however often redraws were requested for a window
/// before the flush, the flush sends exactly one `Draw` for it, and none for
/// a window that was not requested.
pub proof fn law_one_draw_per_window(ids: Seq<WindowId>, w: WindowId)
    ensures
        draw_events(requests_after(ids)).no_duplicates(),
        draw_events(requests_after(ids)).contains(RawEvent::Draw { window_id: w })
            <==> ids.contains(w),
    decreases ids.len(),
{
    let r = requests_after(ids);
    let d = draw_events(r);
    lemma_requests_after(ids, w);
    assert forall|i: int, j: int| 0 <= i < d.len() && 0 <= j < d.len() && i != j implies d[i]
        != d[j] by {
        assert(r[i] != r[j]);
    }
    if d.contains(RawEvent::Draw { window_id: w }) {
        let i = choose|i: int| 0 <= i < d.len() && d[i] == RawEvent::Draw { window_id: w };
        assert(r[i] == w);
    }
    if r.contains(w) {
        let i = choose|i: int| 0 <= i < r.len() && r[i] == w;
        assert(d[i] == RawEvent::Draw { window_id: w });
    }
}

proof fn lemma_requests_after(ids: Seq<WindowId>, w: WindowId)
    ensures
        requests_after(ids).no_duplicates(),
        requests_after(ids).contains(w) <==> ids.contains(w),
    decreases ids.len(),
{
    if ids.len() > 0 {
        let prev = ids.drop_last();
        lemma_requests_after(prev, w);
        law_redraw_no_duplicates(requests_after(prev), ids.last());
        let p = requests_after(prev);
        let l = ids.last();
        let r = requests_after(ids);
        assert(ids.contains(w) <==> (prev.contains(w) || w == l)) by {
            if ids.contains(w) {
                let k = choose|k: int| 0 <= k < ids.len() && ids[k] == w;
                if k < ids.len() - 1 {
                    assert(prev[k] == w);
                }
            }
            if prev.contains(w) {
                let k = choose|k: int| 0 <= k < prev.len() && prev[k] == w;
                assert(ids[k] == w);
            }
            assert(ids[ids.len() - 1] == l);
        }
        assert(r.contains(w) <==> (p.contains(w) || w == l)) by {
            if !p.contains(l) {
                assert(r == p.push(l));
                assert(r[r.len() - 1] == l);
                if r.contains(w) {
                    let i = choose|i: int| 0 <= i < r.len() && r[i] == w;
                    if i < p.len() {
                        assert(p[i] == w);
                    }
                }
                if p.contains(w) {
                    let i = choose|i: int| 0 <= i < p.len() && p[i] == w;
                    assert(r[i] == w);
                }
            }
        }
    }
}

} // verus!
