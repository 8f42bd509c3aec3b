use vstd::prelude::*;

verus! {

/// Number of lamps on the display.
pub const MAX_KEYS: usize = 12;

/// One lamp of the display: a label and an on/off state.
pub struct Key {
    pub label: String,
    pub state: bool,
}

impl Key {
    /// A lamp with the given label, switched off.
    pub fn new(label: String) -> (r: Self)
        ensures
            r.label == label,
            !r.state,
    {
        Key { label, state: false }
    }
}

} // verus!
