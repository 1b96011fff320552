//! Settings of the document under test that the tester decides on before
//! the document is laid out.

use vstd::prelude::*;

verus! {

/// The width of the window a document renders to when none was set.
pub const DEFAULT_WINDOW_WIDTH: u32 = 500;

/// The height of the window a document renders to when none was set.
pub const DEFAULT_WINDOW_HEIGHT: u32 = 800;

/// The size, in pixels, of the window that a document renders to: the size
/// set with `with_window_size`, or 500 by 800.
pub fn window_size_or_default(window_size: Option<(u32, u32)>) -> (res: (u32, u32))
    ensures
        res == match window_size {
            Some(size) => size,
            None => (DEFAULT_WINDOW_WIDTH, DEFAULT_WINDOW_HEIGHT),
        },
{
    match window_size {
        Some(size) => size,
        None => (DEFAULT_WINDOW_WIDTH, DEFAULT_WINDOW_HEIGHT),
    }
}

} // verus!
