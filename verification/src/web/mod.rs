//! The payloads of the web interface, and what its handlers decide.

pub mod farmer;
pub mod leds;
pub mod system;
