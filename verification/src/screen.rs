//! A screen of drawable components, dispatched through a trait object.

use vstd::prelude::*;

verus! {

/// Something that can draw itself. Library users provide the implementation;
/// drawing has no observable effect on the component.
pub trait Draw {
    fn draw(&self);
}

/// A screen holding any mix of components that implement `Draw`.
pub struct Screen {
    pub components: Vec<Box<dyn Draw>>,
}

impl Screen {
    /// Draws every component, in order.
    pub fn run(&self) {
        let mut i: usize = 0;
        while i < self.components.len()
            invariant
                i <= self.components@.len(),
            decreases self.components@.len() - i,
        {
            self.components[i].draw();
            i = i + 1;
        }
    }
}

/// A button: a drawable component with a size and a label.
pub struct Button {
    pub width: u32,
    pub height: u32,
    pub label: String,
}

impl Draw for Button {
    fn draw(&self) {
    }
}

} // verus!
