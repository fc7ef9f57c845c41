//! Renders the live workspace set of a window manager onto a fixed-size row
//! of display slots and serializes that row as widget markup.
//!
//! The window-manager queries and the widget-engine sink are I/O performed by
//! the surrounding application; this library holds the verified core: the
//! reconciliation of sparse live workspace records against the fixed slot
//! grid, and the byte-exact serialization of the resulting button row.

pub mod markup;
pub mod slots;
