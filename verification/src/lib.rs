//! Bridges a retained-mode widget library into a host game engine.
//!
//! The crate models the reconciliation loop that keeps a widget tree and the
//! host renderer in sync: translating host input into the widget library's
//! event model, feeding asynchronous commands into the session in FIFO order,
//! deciding when a redraw is required, turning the resulting draw list into
//! GPU resource operations (texture uploads with row padding, double-buffered
//! vertex buffers), and emitting the render commands that draw one frame.
//!
//! The host engine's renderer and the widget library's own layout engine are
//! external collaborators: the driver around this crate performs the actual
//! GPU calls and widget-tree evaluation, while everything this crate decides
//! or computes is specified and verified here.

pub mod draw;
pub mod emit;
pub mod event;
pub mod node;
pub mod pipeline;
pub mod reconcile;
pub mod session;
pub mod style;
pub mod update;
