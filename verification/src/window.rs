//! The window configuration handed to the presentation layer: dimensions
//! and a title. Event handling and surface presentation live outside the
//! library.

use vstd::prelude::*;

verus! {

pub struct Window {
    pub width: u32,
    pub height: u32,
    pub title: &'static str,
}

impl Window {
    pub fn new(width: u32, height: u32, title: &'static str) -> (w: Window)
        ensures
            w.width == width,
            w.height == height,
            w.title == title,
    {
        Window { width, height, title }
    }
}

} // verus!
