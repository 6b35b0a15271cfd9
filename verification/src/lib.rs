//! Drives an Energenie-style 433 MHz socket transmitter: encodes socket
//! commands into 4-bit codes with their settle/enable/hold timing sequence,
//! and decides each polling cycle whether socket 1 should be lit, from
//! calendar rules and today's sunset.

pub mod scheduler;
pub mod transmitter;
