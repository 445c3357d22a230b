//! Integer core of a sine-wave synthesiser: render configuration, frame
//! counting, quantisation of scaled samples into signed PCM, random choice of
//! the oscillator that supplies each frame, and the PCM header of the output.
pub mod config;
pub mod header;
pub mod phase;
pub mod quantize;
pub mod render;
pub mod selection;
