//! Acquisition pipeline for the MU1603 USB image sensor.
//!
//! The crate holds the decisions of the pipeline: pixel buffers, sensor
//! settings and their register encoding, the vendor command sequences, frame
//! reassembly, the frame hand-off between threads, the demosaic render plan
//! and the capture handshake. Every function is verified against its
//! contract. Transfers on the bus, calls into the graphics driver and file
//! output are carried out by the program that links this crate, which feeds
//! their results back in.

pub mod acquire;
pub mod camera;
pub mod demosaic;
pub mod driver;
pub mod frame;
pub mod ipc;
pub mod pixel;
pub mod preview;
pub mod shared;
pub mod state;
pub mod ui;
pub mod usb;
