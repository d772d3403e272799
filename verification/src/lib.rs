//! A minimal drawable-component library: an abstract drawing capability,
//! two concrete component kinds, and a screen that draws an ordered
//! sequence of heterogeneous components.
//!
//! Drawing a component is a stub with no runtime effect, so each `draw`
//! invocation is recorded as a ghost [`components::DrawEvent`]; the
//! contracts on [`screen::Screen::run`] pin down how many invocations
//! happen and in which order.

pub mod components;
pub mod screen;

pub use components::Button;
pub use components::Component;
pub use components::Draw;
pub use components::DrawEvent;
pub use components::SelectBox;
pub use screen::Screen;
