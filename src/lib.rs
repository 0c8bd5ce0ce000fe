//! Driver for an ILI9328 display controller wired to a bit-banged 16-bit
//! parallel bus: register protocol, power-on sequence, rotation and
//! pixel and rectangle drawing. Every bus action is an event in the bus's
//! history, and each operation states exactly which events it adds.
pub mod bus;
pub mod color;
pub mod geometry;
pub mod lcd;
pub mod protocol;
