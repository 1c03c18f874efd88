//! The decisions of the departure display: what the countdown shows each
//! second, and how the board waits for its network link.

pub mod countdown;
pub mod link;
