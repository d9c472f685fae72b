//! Verified core of GainSnap, a stereo gain matcher for audio hosts.
//!
//! Levels, gains and samples are held as IEEE 754 bit patterns: `u32` for
//! single precision, `u64` for double precision. Everything that only compares,
//! bounds, selects, stores or frames such a value is decided here, with a
//! contract. Arithmetic on the values is left to the caller, whose results come
//! back in as arguments.
pub mod buffers;
pub mod bundle;
pub mod detector;
pub mod double;
pub mod dsp;
pub mod editor;
pub mod frame;
pub mod gui;
pub mod gui_gpui;
pub mod history;
pub mod host;
pub mod matcher;
pub mod params;
pub mod runs;
pub mod single;
pub mod state;
pub mod status;
pub mod text;
pub mod timeline;
