//! A small command-line flag reader: flags are registered with a short and a
//! long name and a variable to fill, and a line of input is scanned for them.

pub mod decimal;
pub mod engine;
pub mod intake;
pub mod integers;
pub mod matcher;
pub mod target;
pub mod text;
pub mod value;

pub use intake::{Arg, Intake};
pub use matcher::{Hit, Matcher, PatternError};
pub use target::Target;
pub use value::{ArgValue, Malformed};
