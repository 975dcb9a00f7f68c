//! Verified control core of a small microcontroller firmware: an LED that
//! blinks, a button that is watched for edges, and an OLED panel that is
//! brought up once through a blocking bridge over a suspend-based bus.
//!
//! Every decision the firmware takes lives here as a function from plain
//! values to plain values, with a contract. The hardware, the executor and the
//! display driver stay outside and only carry out what these functions decide.

pub mod blink;
pub mod boot;
pub mod bus;
pub mod button;
pub mod display;
pub mod framebuffer;
pub mod level;
pub mod peripherals;
pub mod record;
pub mod scheduler;
pub mod text;
