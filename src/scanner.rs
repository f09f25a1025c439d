//! The two-phase scan of a segment: decisions only. The caller reads the file, runs the
//! element grammar on the readable bytes and hands the results back as events.
use vstd::prelude::*;
use crate::buffer::StreamBuffer;
use crate::element::{Decoded, ElementKind, InfoError};
use crate::slots::{metadata_error, metadata_next, MetadataSlots};

verus! {

/// Where the scan stands.
#[derive(Clone, Copy, Debug, PartialEq, Eq, Structural)]
pub enum Phase {
    /// Before the EBML header is decoded.
    Header,
    /// Before the segment declaration is decoded.
    Segment,
    /// Collecting the seek table, info block and track list.
    Metadata,
    /// Past the metadata: clusters and void elements only.
    Clusters,
}

/// The event that the scanner waits for next.
#[derive(Clone, Copy, Debug, PartialEq, Eq, Structural)]
pub enum Awaiting {
    Bytes,
    Header,
    Segment,
    Element,
    Nothing,
}

/// What the caller does next.
#[derive(Debug)]
pub enum Action {
    /// Read at most this many bytes from the file and hand them to `on_bytes`.
    Read(usize),
    /// Decode the EBML header from `readable` and hand the result to `on_header`.
    DecodeHeader,
    /// Decode the segment declaration from `readable` and hand the result to `on_segment`.
    DecodeSegment,
    /// Decode one segment-level element from `readable` and hand the result to `on_element`.
    DecodeElement,
    /// The buffer is full of one unfinished element: the phase stops here without error.
    Saturated,
    /// The scan is over.
    Done(Result<(), InfoError>),
}

pub struct Scanner {
    buf: StreamBuffer,
    phase: Phase,
    awaiting: Awaiting,
    slots: MetadataSlots,
    position: usize,
}

/// The action that asks for bytes when free space is `space` and reclaimable room `consumed`.
pub open spec fn read_request(space: nat, consumed: nat, r: Action) -> bool {
    if space > 0 {
        r matches Action::Read(n) && n == space
    } else if consumed > 0 {
        r matches Action::Read(n) && n == consumed
    } else {
        r is Saturated
    }
}

/// The cluster phase lets clusters and void elements pass.
pub open spec fn cluster_accepts(kind: ElementKind) -> bool {
    kind is Cluster || kind is Void
}

/// The error with which an element found at offset `at` ends the cluster phase.
pub open spec fn cluster_error(kind: ElementKind, at: usize, e: InfoError) -> bool {
    match kind {
        ElementKind::Unknown(id, size) => e matches InfoError::UnknownElement(p, i, z) && p == at && i == id
            && z == size,
        _ => match e {
            InfoError::UnexpectedElement(t) => t@ == "seek head, info or tracks element"@,
            _ => false,
        },
    }
}

/// Whether an element is shown to the reader: in the metadata phase voids, and a seek
/// table, info block or track list whose slot is still empty; in the cluster phase
/// clusters and voids.
pub open spec fn reported_in(phase: Phase, slots: MetadataSlots, kind: ElementKind) -> bool {
    match phase {
        Phase::Metadata => match kind {
            ElementKind::SeekHead => slots.seek_head is None,
            ElementKind::Info => slots.info is None,
            ElementKind::Tracks => slots.tracks is None,
            ElementKind::Void(_) => true,
            _ => false,
        },
        Phase::Clusters => kind is Cluster || kind is Void,
        _ => false,
    }
}

/// Checks an element found at offset `at` in the cluster phase: a metadata element comes
/// too late, an unknown one ends the scan with its offset, ID and size.
pub fn check_cluster_element(kind: ElementKind, at: usize) -> (r: Result<(), InfoError>)
    ensures
        cluster_accepts(kind) ==> r is Ok,
        !cluster_accepts(kind) ==> (r is Err && cluster_error(kind, at, r->Err_0)),
{
    match kind {
        ElementKind::SeekHead | ElementKind::Info | ElementKind::Tracks => Err(
            InfoError::UnexpectedElement(String::from_str("seek head, info or tracks element")),
        ),
        ElementKind::Cluster => Ok(()),
        ElementKind::Void(_) => Ok(()),
        ElementKind::Unknown(id, size) => Err(InfoError::UnknownElement(at, id, size)),
    }
}

impl Scanner {
    pub closed spec fn buffer(&self) -> StreamBuffer {
        self.buf
    }

    pub closed spec fn phase_of(&self) -> Phase {
        self.phase
    }

    pub closed spec fn awaiting_of(&self) -> Awaiting {
        self.awaiting
    }

    pub closed spec fn slots_of(&self) -> MetadataSlots {
        self.slots
    }

    /// The offset in the file of the first readable byte.
    pub closed spec fn offset_of(&self) -> usize {
        self.position
    }

    /// Bytes consumed from the start of the file.
    pub open spec fn position_of(&self) -> nat {
        self.offset_of() as nat
    }

    /// The buffer keeps its regions apart, the cluster phase comes only after all three
    /// metadata slots are filled, and bytes are asked for only where there is room.
    pub open spec fn wf(&self) -> bool {
        &&& self.buffer().wf()
        &&& self.phase_of() is Clusters ==> self.slots_of().complete()
        &&& (self.phase_of() is Header || self.phase_of() is Segment) ==> self.slots_of() == MetadataSlots {
            seek_head: None,
            info: None,
            tracks: None,
        }
        &&& self.phase_of() is Header ==> self.position_of() == 0
        &&& self.awaiting_of() is Header ==> self.phase_of() is Header
        &&& self.awaiting_of() is Segment ==> self.phase_of() is Segment
        &&& self.awaiting_of() is Element ==> (self.phase_of() is Metadata || self.phase_of() is Clusters)
        &&& (self.phase_of() is Metadata && (self.awaiting_of() is Bytes || self.awaiting_of() is Element))
            ==> !self.slots_of().complete()
    }

    /// A scanner with a buffer of `capacity` bytes, together with its first action.
    pub fn new(capacity: usize) -> (r: (Scanner, Action))
        ensures
            r.0.wf(),
            r.0.phase_of() is Header,
            r.0.position_of() == 0,
            r.0.buffer().data() == Seq::<u8>::empty(),
            r.0.buffer().capacity() == capacity,
            r.0.buffer().space() == capacity,
            r.0.buffer().consumed() == 0,
            capacity > 0 ==> (r.1 matches Action::Read(n) && n == capacity && r.0.awaiting_of() is Bytes),
            capacity == 0 ==> (r.0.awaiting_of() is Nothing && r.1 is Saturated),
    {
        let buf = StreamBuffer::new(capacity);
        let s = Scanner {
            buf,
            phase: Phase::Header,
            awaiting: Awaiting::Bytes,
            slots: MetadataSlots::empty(),
            position: 0,
        };
        if capacity == 0 {
            (Scanner { awaiting: Awaiting::Nothing, ..s }, Action::Saturated)
        } else {
            (s, Action::Read(capacity))
        }
    }

    pub fn phase(&self) -> (r: Phase)
        ensures
            r == self.phase_of(),
    {
        self.phase
    }

    pub fn awaiting(&self) -> (r: Awaiting)
        ensures
            r == self.awaiting_of(),
    {
        self.awaiting
    }

    pub fn slots(&self) -> (r: MetadataSlots)
        ensures
            r == self.slots_of(),
    {
        self.slots
    }

    /// Bytes consumed from the start of the file.
    pub fn position(&self) -> (r: usize)
        ensures
            r == self.position_of(),
    {
        self.position
    }

    /// The bytes that the grammar is to decode next.
    pub fn readable(&self) -> (r: &[u8])
        ensures
            r@ == self.buffer().data(),
    {
        self.buf.readable()
    }

    /// Whether an element that the grammar just decoded is to be shown to the reader.
    pub fn reports(&self, kind: &ElementKind) -> (r: bool)
        ensures
            r == reported_in(self.phase_of(), self.slots_of(), *kind),
    {
        match self.phase {
            Phase::Metadata => match kind {
                ElementKind::SeekHead => self.slots.seek_head.is_none(),
                ElementKind::Info => self.slots.info.is_none(),
                ElementKind::Tracks => self.slots.tracks.is_none(),
                ElementKind::Void(_) => true,
                _ => false,
            },
            Phase::Clusters => match kind {
                ElementKind::Cluster | ElementKind::Void(_) => true,
                _ => false,
            },
            _ => false,
        }
    }

    /// Whether the seek table, info block and track list have all been seen.
    pub fn metadata_complete(&self) -> (r: bool)
        ensures
            r == self.slots_of().complete(),
    {
        self.slots.is_complete()
    }

    /// How a scan that stopped on a full buffer ends: without error where the metadata
    /// phase had completed, and short of data where it had not.
    pub fn saturated_result(&self) -> (r: Result<(), InfoError>)
        ensures
            self.phase_of() is Clusters ==> r is Ok,
            !(self.phase_of() is Clusters) ==> r matches Err(InfoError::NoMoreData),
    {
        if self.phase == Phase::Clusters {
            Ok(())
        } else {
            Err(InfoError::NoMoreData)
        }
    }

    /// Starts a round of the element loop: closes the metadata phase once all three slots
    /// are filled, then asks for bytes, reclaiming consumed room first where the buffer is
    /// full.
    fn next_round(&mut self) -> (r: Action)
        requires
            old(self).wf(),
            old(self).phase_of() is Metadata || old(self).phase_of() is Clusters,
        ensures
            final(self).wf(),
            final(self).phase_of() == (if old(self).phase_of() is Metadata && old(self).slots_of().complete() {
                Phase::Clusters
            } else {
                old(self).phase_of()
            }),
            final(self).slots_of() == old(self).slots_of(),
            final(self).position_of() == old(self).position_of(),
            final(self).buffer().data() == old(self).buffer().data(),
            final(self).buffer().capacity() == old(self).buffer().capacity(),
            read_request(old(self).buffer().space(), old(self).buffer().consumed(), r),
            r matches Action::Read(n) ==> (n == final(self).buffer().space() && n > 0
                && final(self).awaiting_of() is Bytes),
            r is Saturated ==> (final(self).awaiting_of() is Nothing && final(self).buffer().space() == 0
                && final(self).buffer().consumed() == 0),
            r is Read || r is Saturated,
    {
        if self.phase == Phase::Metadata && self.slots.is_complete() {
            self.phase = Phase::Clusters;
        }
        if self.buf.available_space() == 0 {
            self.buf.compact();
            if self.buf.available_space() == 0 {
                self.awaiting = Awaiting::Nothing;
                return Action::Saturated;
            }
        }
        self.awaiting = Awaiting::Bytes;
        Action::Read(self.buf.available_space())
    }

    /// Takes the bytes that a read brought. At the start they go to the header decode; in
    /// the element loop, no bytes at all means the end of the file, which is an error
    /// before the metadata is complete and the end of the scan after it.
    pub fn on_bytes(&mut self, chunk: &[u8]) -> (r: Action)
        requires
            old(self).wf(),
            old(self).awaiting_of() is Bytes,
            chunk@.len() <= old(self).buffer().space(),
        ensures
            final(self).wf(),
            final(self).buffer().data() == old(self).buffer().data() + chunk@,
            final(self).buffer().capacity() == old(self).buffer().capacity(),
            final(self).phase_of() == old(self).phase_of(),
            final(self).slots_of() == old(self).slots_of(),
            final(self).position_of() == old(self).position_of(),
            old(self).phase_of() is Header ==> (r is DecodeHeader && final(self).awaiting_of() is Header),
            old(self).phase_of() is Segment ==> (r is DecodeSegment && final(self).awaiting_of() is Segment),
            (old(self).phase_of() is Metadata || old(self).phase_of() is Clusters) ==> {
                if final(self).buffer().data().len() > 0 {
                    r is DecodeElement && final(self).awaiting_of() is Element
                } else if old(self).phase_of() is Metadata {
                    r matches Action::Done(Err(InfoError::NoMoreData)) && final(self).awaiting_of() is Nothing
                } else {
                    r matches Action::Done(Ok(())) && final(self).awaiting_of() is Nothing
                }
            },
    {
        self.buf.fill(chunk);
        match self.phase {
            Phase::Header => {
                self.awaiting = Awaiting::Header;
                Action::DecodeHeader
            },
            Phase::Segment => {
                self.awaiting = Awaiting::Segment;
                Action::DecodeSegment
            },
            _ => {
                if self.buf.available_data() == 0 {
                    self.awaiting = Awaiting::Nothing;
                    if self.phase == Phase::Metadata {
                        Action::Done(Err(InfoError::NoMoreData))
                    } else {
                        Action::Done(Ok(()))
                    }
                } else {
                    self.awaiting = Awaiting::Element;
                    Action::DecodeElement
                }
            },
        }
    }

    /// Drops `n` decoded bytes and counts them.
    fn advance(&mut self, n: usize)
        requires
            old(self).wf(),
            !(old(self).phase_of() is Header),
            n <= old(self).buffer().data().len(),
            old(self).position_of() + n <= usize::MAX,
        ensures
            final(self).wf(),
            final(self).buffer().data() == old(self).buffer().data().subrange(n as int, old(self).buffer().data().len() as int),
            final(self).buffer().capacity() == old(self).buffer().capacity(),
            final(self).buffer().space() >= old(self).buffer().space(),
            final(self).buffer().space() + final(self).buffer().consumed() == old(self).buffer().space()
                + old(self).buffer().consumed() + n,
            final(self).position_of() == old(self).position_of() + n,
            final(self).phase_of() == old(self).phase_of(),
            final(self).slots_of() == old(self).slots_of(),
            final(self).awaiting_of() == old(self).awaiting_of(),
    {
        self.buf.consume(n);
        self.position = self.position + n;
    }

    /// Takes the length of the decoded EBML header, or `None` where it did not decode.
    pub fn on_header(&mut self, decoded: Option<usize>) -> (r: Action)
        requires
            old(self).wf(),
            old(self).awaiting_of() is Header,
            decoded matches Some(n) ==> n <= old(self).buffer().data().len(),
        ensures
            final(self).wf(),
            final(self).slots_of() == old(self).slots_of(),
            decoded is None ==> (r matches Action::Done(Err(InfoError::ParseHeader))
                && final(self).awaiting_of() is Nothing),
            decoded matches Some(n) ==> {
                &&& r is DecodeSegment
                &&& final(self).phase_of() is Segment
                &&& final(self).awaiting_of() is Segment
                &&& final(self).position_of() == old(self).position_of() + n
                &&& final(self).buffer().data() == old(self).buffer().data().subrange(n as int, old(self).buffer().data().len() as int)
            },
    {
        match decoded {
            None => {
                self.awaiting = Awaiting::Nothing;
                Action::Done(Err(InfoError::ParseHeader))
            },
            Some(n) => {
                self.phase = Phase::Segment;
                self.awaiting = Awaiting::Segment;
                self.advance(n);
                Action::DecodeSegment
            },
        }
    }

    /// Takes the length of the decoded segment declaration, or `None` where it did not
    /// decode; after it the metadata phase begins.
    pub fn on_segment(&mut self, decoded: Option<usize>) -> (r: Action)
        requires
            old(self).wf(),
            old(self).awaiting_of() is Segment,
            decoded matches Some(n) ==> (n <= old(self).buffer().data().len()
                && old(self).position_of() + n <= usize::MAX),
        ensures
            final(self).wf(),
            final(self).slots_of() == old(self).slots_of(),
            decoded is None ==> (r matches Action::Done(Err(InfoError::ParseHeader))
                && final(self).awaiting_of() is Nothing),
            decoded matches Some(n) ==> {
                &&& final(self).phase_of() is Metadata
                &&& final(self).position_of() == old(self).position_of() + n
                &&& final(self).buffer().data() == old(self).buffer().data().subrange(n as int, old(self).buffer().data().len() as int)
                &&& final(self).buffer().capacity() == old(self).buffer().capacity()
                &&& r is Read || r is Saturated
                &&& n > 0 ==> r is Read
            },
            r matches Action::Read(k) ==> (k == final(self).buffer().space() && k > 0
                && final(self).awaiting_of() is Bytes),
            r is Saturated ==> (final(self).awaiting_of() is Nothing && final(self).buffer().space() == 0
                && final(self).buffer().consumed() == 0),
    {
        match decoded {
            None => {
                self.awaiting = Awaiting::Nothing;
                Action::Done(Err(InfoError::ParseHeader))
            },
            Some(n) => {
                self.advance(n);
                self.phase = Phase::Metadata;
                self.awaiting = Awaiting::Nothing;
                self.next_round()
            },
        }
    }

    /// Takes what the grammar made of the readable bytes. An element is checked against the
    /// rules of the phase at the current offset and, where it passes, its bytes are
    /// consumed and counted; a partial element consumes nothing and asks for more bytes; a
    /// malformed one ends the scan.
    pub fn on_element(&mut self, decoded: Decoded) -> (r: Action)
        requires
            old(self).wf(),
            old(self).awaiting_of() is Element,
            decoded matches Decoded::Element(n, _) ==> (n <= old(self).buffer().data().len()
                && old(self).position_of() + n <= usize::MAX),
        ensures
            final(self).wf(),
            final(self).buffer().capacity() == old(self).buffer().capacity(),
            decoded is NeedMoreBytes ==> {
                &&& final(self).buffer().data() == old(self).buffer().data()
                &&& final(self).position_of() == old(self).position_of()
                &&& final(self).slots_of() == old(self).slots_of()
                &&& read_request(old(self).buffer().space(), old(self).buffer().consumed(), r)
            },
            decoded matches Decoded::Failure(t) ==> (r matches Action::Done(Err(InfoError::Parse(m))) && m == t),
            decoded matches Decoded::Element(n, kind) ==> {
                let accepted = if old(self).phase_of() is Metadata {
                    metadata_next(old(self).slots_of(), kind, old(self).offset_of()) is Some
                } else {
                    cluster_accepts(kind)
                };
                if accepted {
                    &&& final(self).position_of() == old(self).position_of() + n
                    &&& final(self).buffer().data() == old(self).buffer().data().subrange(
                        n as int,
                        old(self).buffer().data().len() as int,
                    )
                    &&& old(self).phase_of() is Metadata ==> final(self).slots_of() == metadata_next(
                        old(self).slots_of(),
                        kind,
                        old(self).offset_of(),
                    )->Some_0
                    &&& old(self).phase_of() is Clusters ==> final(self).slots_of() == old(self).slots_of()
                    &&& r is Read || r is Saturated
                    &&& n > 0 ==> r is Read
                } else {
                    &&& final(self).position_of() == old(self).position_of()
                    &&& final(self).buffer().data() == old(self).buffer().data()
                    &&& final(self).awaiting_of() is Nothing
                    &&& r is Done
                    &&& r->Done_0 is Err
                    &&& old(self).phase_of() is Metadata ==> metadata_error(kind, r->Done_0->Err_0)
                    &&& old(self).phase_of() is Clusters ==> cluster_error(
                        kind,
                        old(self).offset_of(),
                        r->Done_0->Err_0,
                    )
                }
            },
            r matches Action::Read(k) ==> (k == final(self).buffer().space() && k > 0
                && final(self).awaiting_of() is Bytes),
            r is Saturated ==> (final(self).awaiting_of() is Nothing && final(self).buffer().space() == 0
                && final(self).buffer().consumed() == 0),
            r is Done ==> final(self).awaiting_of() is Nothing,
            r is Read || r is Saturated || r is Done,
            !(r is Done) ==> final(self).phase_of() == (if old(self).phase_of() is Metadata
                && final(self).slots_of().complete() {
                Phase::Clusters
            } else {
                old(self).phase_of()
            }),
            r is Done ==> final(self).phase_of() == old(self).phase_of(),
            decoded is NeedMoreBytes ==> final(self).phase_of() == old(self).phase_of(),
    {
        match decoded {
            Decoded::NeedMoreBytes => self.next_round(),
            Decoded::Failure(t) => {
                self.awaiting = Awaiting::Nothing;
                Action::Done(Err(InfoError::Parse(t)))
            },
            Decoded::Element(n, kind) => {
                if self.phase == Phase::Metadata {
                    match self.slots.accept(kind, self.position) {
                        Ok(t) => {
                            self.awaiting = Awaiting::Nothing;
                            self.slots = t;
                        },
                        Err(e) => {
                            self.awaiting = Awaiting::Nothing;
                            return Action::Done(Err(e));
                        },
                    }
                } else {
                    match check_cluster_element(kind, self.position) {
                        Ok(()) => {},
                        Err(e) => {
                            self.awaiting = Awaiting::Nothing;
                            return Action::Done(Err(e));
                        },
                    }
                }
                self.advance(n);
                self.next_round()
            },
        }
    }
}

} // verus!
