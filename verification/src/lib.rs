//! Channel configuration, encoder and on-screen-display planning, stream
//! bookkeeping and call sequencing for an Ingenic IMP camera pipeline
//! (sensor -> frame source -> OSD -> encoder -> stream files).
//!
//! The library decides; the program around it performs the vendor calls
//! and the file I/O and reports each outcome back.
#![allow(non_camel_case_types)]
#![allow(non_snake_case)]

pub mod config;
pub mod encoder;
pub mod timestamp;
pub mod stream;
pub mod osd;
pub mod poll;
pub mod sequence;
pub mod runner;
pub mod capture;
