//! Segment-level elements as the scanner sees them, and the scan's errors.
use vstd::prelude::*;

verus! {

#[verifier::external_type_specification]
#[verifier::external_body]
pub struct ExIoError(std::io::Error);

/// What a scan of a Matroska file can fail with.
#[derive(Debug)]
pub enum InfoError {
    NoPathReceived,
    NoMoreData,
    ParseHeader,
    SeekHeadElement,
    InfoElement,
    TracksElement,
    UnexpectedElement(String),
    UnknownElement(usize, u32, Option<usize>),
    Parse(String),
    Io(std::io::Error),
}

/// A decoded segment-level element, reduced to what the scan's decisions read.
#[derive(Clone, Copy, Debug, PartialEq, Eq, Structural)]
pub enum ElementKind {
    SeekHead,
    Info,
    Tracks,
    Cluster,
    /// A void element with the size of its body.
    Void(u64),
    /// An element whose ID the grammar does not know, with its declared size if any.
    Unknown(u32, Option<usize>),
}

/// What the element grammar made of the readable bytes.
#[derive(Debug)]
pub enum Decoded {
    /// An element, with the number of bytes that encode it.
    Element(usize, ElementKind),
    /// The bytes end inside an element.
    NeedMoreBytes,
    /// The bytes are malformed; the grammar's diagnostic.
    Failure(String),
}

impl ElementKind {
    pub open spec fn is_singleton(self) -> bool {
        self is SeekHead || self is Info || self is Tracks
    }
}

} // verus!
