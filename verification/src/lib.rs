//! Safe access layer over a vendor hardware-management interface for
//! industrial single-board computers.
//!
//! The crate models the handle/lifetime ownership chain (library context,
//! board, per-subsystem accessors) and the conversion of raw fixed-point,
//! fixed-width-string and bit-mask values into well-typed domain values.
//! The raw call surface itself (a flat C-style function table) is an
//! external collaborator; the surrounding application layer makes those
//! calls and hands this crate plain values.

pub mod board;
pub mod congatec;
pub mod fan;
pub mod fixed_point;
pub mod i2c;
pub mod status;
pub mod storage_area;
pub mod temperature;
pub mod text;
