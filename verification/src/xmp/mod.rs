//! XMP: the properties of an RDF description in an XML document.
pub mod events;
pub mod file;
pub mod properties;

pub use file::{Error, Xmp};
pub use properties::Tag;
