pub mod args;
pub mod dispatch;
pub mod error;
pub mod input_method;
