//! Control library for a small desktop robot: wire framing of LCD frames and
//! joint commands, the frame exchange with the device, and the state of the
//! operator console that feeds it.

pub mod canvas;
pub mod codec;
pub mod comm;
pub mod config;
pub mod console;
pub mod constants;
pub mod device;
pub mod display;
pub mod eyes;
pub mod geometry;
pub mod image;
pub mod input;
pub mod joint;
pub mod layout;
pub mod lcd;
pub mod log;
pub mod menu;
pub mod partition;
pub mod serial;
pub mod servo;
pub mod session;
pub mod text;
pub mod transport;
pub mod voice;
