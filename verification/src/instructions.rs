//! What each transition is presented with, and the steps it is made of.

pub mod make;
pub mod refund;
pub mod take;
