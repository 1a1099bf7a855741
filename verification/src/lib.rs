//! Pixel-command pipeline for a one-wire addressable RGB LED strip.
//!
//! Colour commands arrive over HTTP or a WebSocket, pass the validator, wait
//! in a single-slot channel, and are turned by the drive loop into the pulse
//! train that the transmitter sends:
//!
//! network payload -> [`validator`] -> [`channel`] -> [`drive`] ->
//! [`encoder`] -> transmitter
//!
//! The library decides and computes; it performs no I/O. Its callers read
//! from the network, lock the channel, sleep, and drive the hardware.

pub mod channel;
pub mod color;
pub mod drive;
pub mod encoder;
pub mod frame;
pub mod http;
pub mod json;
pub mod session;
pub mod timing;
pub mod validator;
