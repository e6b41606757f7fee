pub mod bytes;
pub mod cli;
pub mod error;
pub mod process;

pub use cli::TextSignFormat;
pub use error::TextError;
