//! What the application's command layer computes before and after it touches the
//! outside world.

pub mod files;
pub mod greeting;
pub mod terminal;

pub use greeting::greet;
