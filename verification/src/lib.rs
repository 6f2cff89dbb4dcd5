//! rust-ui core: the decision logic of a small widget toolkit.
//!
//! Every widget here is a plain value whose state changes only through the
//! methods below; geometry, painting and callbacks live with the backend.

pub mod clock;
pub mod color;
pub mod event;
pub mod focus;
pub mod layout;
pub mod overlay;
pub mod style;
pub mod svg_path;
pub mod text;
pub mod widget;
