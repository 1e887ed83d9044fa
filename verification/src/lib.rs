//! A terminal-UI widget toolkit centred on a scrollback viewport engine:
//! a bounded buffer of styled text presented through a scrolled, wrapped,
//! clipped viewport with mouse-driven selection, live search and
//! fine-grained redraw invalidation.

pub mod forms;
pub mod scrollback;
pub mod status;
pub mod search;
pub mod selection;
pub mod wrap;
pub mod style;
pub mod theme;
pub mod text;

pub use style::StyledChar;
pub use style::StyledText;
