//! The three singleton metadata elements of a segment, and the rules that admit them.
use vstd::prelude::*;
use crate::element::{ElementKind, InfoError};

verus! {

/// Where the seek table, the info block and the track list were found, once each is seen.
#[derive(Clone, Copy, Debug, PartialEq, Eq, Structural)]
pub struct MetadataSlots {
    pub seek_head: Option<usize>,
    pub info: Option<usize>,
    pub tracks: Option<usize>,
}

/// Slots after an element at `at` in the metadata phase, or `None` where it ends the scan.
pub open spec fn metadata_next(s: MetadataSlots, kind: ElementKind, at: usize) -> Option<MetadataSlots> {
    match kind {
        ElementKind::SeekHead => if s.seek_head is Some { None } else {
            Some(MetadataSlots { seek_head: Some(at), ..s })
        },
        ElementKind::Info => if s.info is Some { None } else {
            Some(MetadataSlots { info: Some(at), ..s })
        },
        ElementKind::Tracks => if s.tracks is Some { None } else {
            Some(MetadataSlots { tracks: Some(at), ..s })
        },
        ElementKind::Void(_) => Some(s),
        _ => None,
    }
}

/// The error with which an element that `metadata_next` refuses ends the scan.
pub open spec fn metadata_error(kind: ElementKind, e: InfoError) -> bool {
    match kind {
        ElementKind::SeekHead => e is SeekHeadElement,
        ElementKind::Info => e is InfoElement,
        ElementKind::Tracks => e is TracksElement,
        ElementKind::Cluster => match e {
            InfoError::UnexpectedElement(t) => t@ == "cluster"@,
            _ => false,
        },
        _ => match e {
            InfoError::UnexpectedElement(t) => t@ == "unknown element"@,
            _ => false,
        },
    }
}

/// Slots after a run of elements, each at its own offset; `None` where one ends the scan.
pub open spec fn metadata_run(s: MetadataSlots, items: Seq<(usize, ElementKind)>) -> Option<MetadataSlots>
    decreases items.len(),
{
    if items.len() == 0 {
        Some(s)
    } else {
        match metadata_next(s, items[0].1, items[0].0) {
            Some(t) => metadata_run(t, items.drop_first()),
            None => None,
        }
    }
}

/// How many elements of `items` are of the kind `kind`.
pub open spec fn count_kind(items: Seq<(usize, ElementKind)>, kind: ElementKind) -> nat
    decreases items.len(),
{
    if items.len() == 0 {
        0
    } else {
        (if items[0].1 == kind { 1nat } else { 0nat }) + count_kind(items.drop_first(), kind)
    }
}

impl MetadataSlots {
    pub open spec fn complete(self) -> bool {
        self.seek_head is Some && self.info is Some && self.tracks is Some
    }

    pub fn empty() -> (r: MetadataSlots)
        ensures
            r.seek_head is None && r.info is None && r.tracks is None,
    {
        MetadataSlots { seek_head: None, info: None, tracks: None }
    }

    pub fn is_complete(&self) -> (r: bool)
        ensures
            r == self.complete(),
    {
        self.seek_head.is_some() && self.info.is_some() && self.tracks.is_some()
    }

    /// Takes in an element found at offset `at` during the metadata phase: a singleton
    /// fills its slot unless the slot is taken, a void passes, anything else is refused.
    pub fn accept(self, kind: ElementKind, at: usize) -> (r: Result<MetadataSlots, InfoError>)
        ensures
            metadata_next(self, kind, at) matches Some(t) ==> r == Ok::<MetadataSlots, InfoError>(t),
            metadata_next(self, kind, at) is None ==> (r is Err && metadata_error(kind, r->Err_0)),
    {
        match kind {
            ElementKind::SeekHead => {
                if self.seek_head.is_some() {
                    Err(InfoError::SeekHeadElement)
                } else {
                    Ok(MetadataSlots { seek_head: Some(at), ..self })
                }
            },
            ElementKind::Info => {
                if self.info.is_some() {
                    Err(InfoError::InfoElement)
                } else {
                    Ok(MetadataSlots { info: Some(at), ..self })
                }
            },
            ElementKind::Tracks => {
                if self.tracks.is_some() {
                    Err(InfoError::TracksElement)
                } else {
                    Ok(MetadataSlots { tracks: Some(at), ..self })
                }
            },
            ElementKind::Void(_) => Ok(self),
            ElementKind::Cluster => Err(InfoError::UnexpectedElement(String::from_str("cluster"))),
            ElementKind::Unknown(_, _) => Err(
                InfoError::UnexpectedElement(String::from_str("unknown element")),
            ),
        }
    }
}

/// Seek table, info block and track list, once each among any number of void elements and
/// in any order, fill all three slots without error.
pub proof fn lemma_singletons_complete(items: Seq<(usize, ElementKind)>)
    requires
        forall|i: int| 0 <= i < items.len() ==> (items[i].1.is_singleton() || items[i].1 is Void),
        count_kind(items, ElementKind::SeekHead) == 1,
        count_kind(items, ElementKind::Info) == 1,
        count_kind(items, ElementKind::Tracks) == 1,
    ensures
        metadata_run(MetadataSlots { seek_head: None, info: None, tracks: None }, items) matches Some(t)
            && t.complete(),
{
    lemma_run_fills(MetadataSlots { seek_head: None, info: None, tracks: None }, items);
}

proof fn lemma_run_fills(s: MetadataSlots, items: Seq<(usize, ElementKind)>)
    requires
        forall|i: int| 0 <= i < items.len() ==> (items[i].1.is_singleton() || items[i].1 is Void),
        count_kind(items, ElementKind::SeekHead) == (if s.seek_head is Some { 0nat } else { 1nat }),
        count_kind(items, ElementKind::Info) == (if s.info is Some { 0nat } else { 1nat }),
        count_kind(items, ElementKind::Tracks) == (if s.tracks is Some { 0nat } else { 1nat }),
    ensures
        metadata_run(s, items) matches Some(t) && t.complete(),
    decreases items.len(),
{
    if items.len() > 0 {
        let rest = items.drop_first();
        assert forall|i: int| 0 <= i < rest.len() implies (rest[i].1.is_singleton() || rest[i].1 is Void) by {
            assert(rest[i] == items[i + 1]);
        }
        assert(items[0].1.is_singleton() || items[0].1 is Void);
        lemma_run_fills(metadata_next(s, items[0].1, items[0].0)->Some_0, rest);
    }
}

/// A second seek table, info block or track list while its slot is taken ends the
/// metadata phase with that element's own duplicate error.
pub proof fn lemma_duplicate_refused(s: MetadataSlots, kind: ElementKind, at: usize, e: InfoError)
    requires
        kind.is_singleton(),
        kind is SeekHead ==> s.seek_head is Some,
        kind is Info ==> s.info is Some,
        kind is Tracks ==> s.tracks is Some,
        metadata_error(kind, e),
    ensures
        metadata_next(s, kind, at) is None,
        kind is SeekHead ==> e is SeekHeadElement,
        kind is Info ==> e is InfoElement,
        kind is Tracks ==> e is TracksElement,
{
}

/// No cluster is admitted in the metadata phase, whatever the slots hold.
pub proof fn lemma_cluster_refused(s: MetadataSlots, at: usize)
    ensures
        metadata_next(s, ElementKind::Cluster, at) is None,
{
}

} // verus!
