//! Click-state tracking: a flag that is set while the mouse button is held
//! down on an element.
use vstd::prelude::*;

verus! {

/// Tells whether an element is currently being clicked on (mousedown active).
#[derive(Clone, Debug, Eq, PartialEq, Hash)]
pub struct Clicked(pub bool);

impl Clicked {
    /// The state an element starts with when click tracking is attached.
    pub fn new() -> (r: Clicked)
        ensures
            !r.0,
    {
        Clicked(false)
    }

    /// A mouse button went down on the element.
    pub fn mouse_down(&mut self)
        ensures
            final(self).0,
    {
        self.0 = true;
    }

    /// A mouse button went up anywhere in the window.
    pub fn mouse_up(&mut self)
        ensures
            !final(self).0,
    {
        self.0 = false;
    }
}

/// Whether an element is being clicked on, given its click state if it has
/// one: an element without click tracking never counts as clicked.
pub fn is_clicked(state: Option<&Clicked>) -> (r: bool)
    ensures
        r == (state matches Some(c) && c.0),
{
    match state {
        Some(c) => c.0,
        None => false,
    }
}

/// The click state an element holds after click tracking is attached: an
/// existing state is kept as it is, otherwise tracking starts released.
pub fn attach_clicked(existing: Option<Clicked>) -> (r: Clicked)
    ensures
        existing matches Some(c) ==> r == c,
        existing is None ==> !r.0,
{
    match existing {
        Some(c) => c,
        None => Clicked::new(),
    }
}

} // verus!
