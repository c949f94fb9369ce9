//! Host-side client for SDSP, an addressed serial packet protocol that carries
//! GPIO and I2C commands to a remote microcontroller.
//!
//! The crate holds the packet framing and its CRC16 ([`sdsp`]), the typed
//! request and response codec together with the retry policy of the host
//! controller ([`gpio`]). It performs no I/O: a caller moves the bytes between
//! the serial line and the functions here.

pub mod gpio;
pub mod sdsp;
