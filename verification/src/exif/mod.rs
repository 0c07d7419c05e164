//! The Exif/TIFF binary-document engine.
pub mod bytes;
pub mod debug;
pub mod decode;
pub mod document;
pub mod edit;
pub mod entry;
pub mod error;
pub mod field_type;
pub mod high_level;
pub mod laws;
pub mod layout;
pub mod lookup;
pub mod makernote;
pub mod raw;
pub mod text;

pub use document::{ExifRaw, IfdLocations, Located};
pub use entry::{EntryRef, ValueOffset};
pub use field_type::Type;
pub use high_level::Exif;
pub use raw::Raw;
