//! The commands that an operator can give.

pub mod http_control;
