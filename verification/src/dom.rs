//! Elements of the source document, as the conversion reads them.

use vstd::prelude::*;

verus! {

/// The identity of a node of the source document. Two nodes are the same
/// node exactly when their identities are equal.
#[derive(Clone, Copy, Debug, PartialEq, Eq, Structural)]
pub struct NodeId {
    pub index: u64,
}

/// The kind of an element, as far as marker resolution tells elements apart.
#[derive(Clone, Copy, Debug, PartialEq, Eq, Structural)]
pub enum ElementTag {
    Path,
    Line,
    Polyline,
    Polygon,
    ClipPath,
    Marker,
    /// Any other element.
    Other,
}

/// A reference to another element of the document: the element that is
/// referred to, and its kind.
#[derive(Clone, Copy, Debug, PartialEq, Eq, Structural)]
pub struct Link {
    pub target: NodeId,
    pub tag: ElementTag,
}

/// An element of the source document, as far as marker resolution reads
/// it: its node, its kind, and the references that its three marker
/// properties hold. A property that is not set, or holds no reference, is
/// `None`.
#[derive(Clone, Copy, Debug, PartialEq, Eq, Structural)]
pub struct Element {
    pub id: NodeId,
    pub tag: ElementTag,
    pub marker_start: Option<Link>,
    pub marker_mid: Option<Link>,
    pub marker_end: Option<Link>,
}

} // verus!
