//! The items that most callers need, in one import.
pub use crate::commands::{Commands, PrintInfo, VariousMode};
pub use crate::interface::PTouchInterface;
pub use crate::printer::PTouchPrinter;
pub use crate::raster::RasterBuffer;
pub use crate::status::{GetStatus, Status};
pub use crate::Result;
