pub mod support;
pub mod utils;
