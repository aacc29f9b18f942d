//! The state and the layout of an analog clock face.
//!
//! [`time`] holds the time of day that the face shows and the four
//! wrap-around steps that move it. [`input`] reads and writes the numbers
//! of the hour and minute boxes. [`geometry`] says where the hands, marks,
//! numerals and coloured segments stand, in exact fractions of a turn and
//! of the canvas.

pub mod geometry;
pub mod input;
pub mod time;
