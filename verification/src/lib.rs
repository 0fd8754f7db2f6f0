pub mod macos;
pub mod util;
pub mod windows;
