//! XMP fields and the namespaces they belong to.
use vstd::prelude::*;

verus! {

/// XMP field
pub trait Field {
    /// XMP field name
    const NAME: &'static str;

    /// The namespace of the field
    ///
    /// A field of Exif 2.21 or later uses the namespace
    /// `http://cipa.jp/exif/1.0/` (exifEX); an earlier one the namespace
    /// `http://ns.adobe.com/exif/1.0/` (exif).
    const NAMESPACE: Namespace;

    /// The name of the field.
    spec fn name() -> Seq<char>;

    /// The namespace of the field.
    spec fn namespace() -> Namespace;

    /// The name of the field.
    fn field_name() -> (name: &'static str)
        ensures
            name@ == Self::name(),
    ;

    /// The namespace of the field.
    fn field_namespace() -> (namespace: Namespace)
        ensures
            namespace == Self::namespace(),
    ;
}

#[derive(Debug, Clone, PartialEq, Eq)]
pub enum Namespace {
    /// Namespace for fields defined in TIFF
    Tiff,
    /// Namespace for fields defined in Exif 2.2 or earlier
    Exif,
    /// Namespace for fields defined in Exif 2.21 or later
    ExifEX,
    Ps,
    Dc,
    Xmp,
    XmpRights,
    Unknown(String),
}

impl Namespace {
    /// The URL of a namespace.
    pub open spec fn url(self) -> Seq<char> {
        match self {
            Namespace::Tiff => "http://ns.adobe.com/tiff/1.0/"@,
            Namespace::Exif => "http://ns.adobe.com/exif/1.0/"@,
            Namespace::ExifEX => "http://cipa.jp/exif/1.0/"@,
            Namespace::Xmp => "http://ns.adobe.com/xap/1.0/"@,
            Namespace::XmpRights => "http://ns.adobe.com/xap/1.0/rights/"@,
            Namespace::Ps => "http://ns.adobe.com/photoshop/1.0/"@,
            Namespace::Dc => "http://purl.org/dc/elements/1.1/"@,
            Namespace::Unknown(namespace) => namespace@,
        }
    }

    /// Whether the namespace is one of the known ones.
    pub open spec fn is_known(self) -> bool {
        !(self is Unknown)
    }

    /// The namespace with the given URL; an unknown URL is kept as it is.
    pub fn from_url(url: &str) -> (namespace: Namespace)
        ensures
            namespace.url() == url@,
            namespace is Unknown ==> forall|known: Namespace|
                known.is_known() ==> known.url() != url@,
    {
        if same_text(url, "http://ns.adobe.com/tiff/1.0/") {
            Namespace::Tiff
        } else if same_text(url, "http://ns.adobe.com/exif/1.0/") {
            Namespace::Exif
        } else if same_text(url, "http://cipa.jp/exif/1.0/") {
            Namespace::ExifEX
        } else if same_text(url, "http://ns.adobe.com/xap/1.0/") {
            Namespace::Xmp
        } else if same_text(url, "http://ns.adobe.com/xap/1.0/rights/") {
            Namespace::XmpRights
        } else if same_text(url, "http://ns.adobe.com/photoshop/1.0/") {
            Namespace::Ps
        } else if same_text(url, "http://purl.org/dc/elements/1.1/") {
            Namespace::Dc
        } else {
            Namespace::Unknown(url.to_owned())
        }
    }

    /// The URL of the namespace.
    pub fn to_url(&self) -> (url: &str)
        ensures
            url@ == self.url(),
    {
        match self {
            Namespace::Tiff => "http://ns.adobe.com/tiff/1.0/",
            Namespace::Exif => "http://ns.adobe.com/exif/1.0/",
            Namespace::ExifEX => "http://cipa.jp/exif/1.0/",
            Namespace::Xmp => "http://ns.adobe.com/xap/1.0/",
            Namespace::XmpRights => "http://ns.adobe.com/xap/1.0/rights/",
            Namespace::Ps => "http://ns.adobe.com/photoshop/1.0/",
            Namespace::Dc => "http://purl.org/dc/elements/1.1/",
            Namespace::Unknown(namespace) => namespace.as_str(),
        }
    }
}

/// Whether two texts are the same.
pub fn same_text(a: &str, b: &str) -> (same: bool)
    ensures
        same == (a@ == b@),
{
    let a = a.to_owned();
    let b = b.to_owned();
    a.eq(&b)
}

} // verus!
