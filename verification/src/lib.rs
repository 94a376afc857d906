//! Driver core for a bi-stable (e-paper) display panel: a monochrome
//! framebuffer packed in the panel's native layout, and the command/state
//! sequencing of the panel's wire protocol.
//!
//! The library is hardware-free: every display operation is expressed as a
//! plan, a sequence of bus operations ([`epd2in13_v4::BusOp`]) that a thin
//! executor replays over the real serial bus and control lines.

pub mod buffer;
pub mod epd2in13_v4;
pub mod frontend;

pub use buffer::Color;
pub use buffer::MonoImage;
pub use epd2in13_v4::BusOp;
pub use epd2in13_v4::BusOpView;
pub use epd2in13_v4::Epd2in13V4;
pub use epd2in13_v4::EpdError;
pub use epd2in13_v4::EpdPins;
pub use epd2in13_v4::UpdateMode;
