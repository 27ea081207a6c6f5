//! Writer for the VBOX-style telemetry text format: channels, a comment and
//! sample rows rendered with fixed-width numeric fields.
pub mod clock;
pub mod error;
pub mod parser;
pub mod text;
pub mod types;
pub mod values;
pub mod writer;

pub use clock::DateTime;
pub use error::Error;
pub use types::{Channel, ChannelName, ChannelUnit};
pub use values::{ChannelValue, Coordinates, TimeOfDay};
pub use writer::Writer;
