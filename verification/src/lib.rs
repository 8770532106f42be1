//! Control core of a small autonomous ground vehicle.
//!
//! The crate covers the device-protocol codec layer and the real-time
//! sensing/actuation control logic: register-oriented bus-transaction
//! framing, accelerometer/magnetometer drivers, the 16-channel PWM chip
//! abstraction and the motor layer above it, a fixed-window sample
//! filter, collision detection, and the monotonic tick clock with its
//! non-blocking delay/interval primitives.
//!
//! Hardware access (the two-wire bus transport, GPIO, the timer
//! interrupt) is supplied by the embedding program through the [`bus::Bus`]
//! trait and by driving [`time::Time`]; everything in this crate is
//! ordinary verified code.

pub mod acc;
pub mod bus;
pub mod codec;
pub mod control;
pub mod mag;
pub mod motor;
pub mod pca;
pub mod sample_buffer;
pub mod time;
