//! Reads and patches the vegetable probability table of a GameCube disc image
//! (GALE01, NTSC v1.02).
//!
//! The image is handled as a sequence of bytes. `header` reads the two fields
//! that locate the file-system table, `chances` holds the probability model and
//! its validation, `codec` maps a model to the bytes of the table and back, and
//! `patch` reads and overwrites the table inside an image.

pub mod chances;
pub mod codec;
pub mod error;
pub mod header;
pub mod patch;

pub use chances::{ItemChances, TurnipFaceChances, VegetableChances};
pub use error::{Error, Group, ValidationError};
pub use header::{FstEntry, GCMHeader};
pub use patch::Revision;
