use vstd::prelude::*;

verus! {

/// Identifies a window by the address of the platform's window object.
#[derive(Clone, Copy, PartialEq, Eq, Structural, Debug, Hash)]
pub struct WindowId {
    raw: usize,
}

impl View for WindowId {
    type V = usize;

    closed spec fn view(&self) -> usize {
        self.raw
    }
}

impl WindowId {
    /// The identifier of the window object at address `raw`.
    pub closed spec fn from_raw(raw: usize) -> WindowId {
        WindowId { raw }
    }

    pub broadcast proof fn lemma_from_raw_view(raw: usize)
        ensures
            #[trigger] WindowId::from_raw(raw)@ == raw,
    {
    }

    pub broadcast proof fn lemma_from_raw_of_view(id: WindowId)
        ensures
            #[trigger] WindowId::from_raw(id@) == id,
    {
    }

    /// Wraps the address of a platform window object.
    pub fn new(raw: usize) -> (id: WindowId)
        ensures
            id == WindowId::from_raw(raw),
            id@ == raw,
    {
        WindowId { raw }
    }

    /// The address of the platform window object.
    pub fn raw(&self) -> (raw: usize)
        ensures
            raw == self@,
    {
        self.raw
    }
}

pub broadcast group group_window_id {
    WindowId::lemma_from_raw_view,
    WindowId::lemma_from_raw_of_view,
}

} // verus!
