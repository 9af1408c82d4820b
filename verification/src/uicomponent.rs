use vstd::prelude::*;

use crate::terminal::Size;

verus! {

/// A part of the screen that is drawn again only when it has changed.
pub trait UiComponent: Sized {
    /// Whether the component is marked to be drawn again.
    spec fn redraw_flag(&self) -> bool;

    /// The component with its mark set to `value`.
    spec fn with_redraw(&self, value: bool) -> Self;

    /// The component after it has been given `size`.
    spec fn with_size(&self, size: Size) -> Self;

    fn mark_redraw(&mut self, value: bool)
        ensures
            *final(self) == old(self).with_redraw(value),
    ;

    fn needs_redraw(&self) -> (r: bool)
        ensures
            self.redraw_flag() ==> r,
    ;

    fn set_size(&mut self, size: Size)
        ensures
            *final(self) == old(self).with_size(size),
    ;

    /// Gives the component `size` and marks it to be drawn again.
    fn resize(&mut self, size: Size)
        ensures
            *final(self) == old(self).with_size(size).with_redraw(true),
    {
        self.set_size(size);
        self.mark_redraw(true);
    }
}

} // verus!
