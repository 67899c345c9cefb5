//! Verified logic of the UMI RTX robot arm driver board: line framing of the
//! serial protocol, request classification, g-code motion decisions and motor
//! position arithmetic.

pub mod line_reader;
pub mod nc;
pub mod serial;
pub mod gcode;
pub mod motion;
pub mod motor;
