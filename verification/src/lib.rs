//! Verified geometry and interaction logic of a screen-region pinning tool:
//! rectangle arithmetic, the selection overlay's drag state, the pinned
//! window's drag, opacity, zoom anchor and placement, menu command decoding and start-up
//! decisions. Everything that talks to the window system lives outside the
//! library and hands plain values in and out.

pub mod geometry;
pub mod overlay;
pub mod pin;
pub mod menu;
pub mod command;
