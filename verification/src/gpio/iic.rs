//! Commands for devices on the I2C bus of the remote controller.

pub mod write;
