use matroska_info::buffer::StreamBuffer;
use matroska_info::element::{Decoded, ElementKind, InfoError};
use matroska_info::scanner::{check_cluster_element, Action, Phase, Scanner};
use matroska_info::slots::MetadataSlots;

const HEADER: u8 = 0xEB;
const SEGMENT: u8 = 0x18;
const SEEK_HEAD: u8 = 1;
const INFO: u8 = 2;
const TRACKS: u8 = 3;
const CLUSTER: u8 = 4;
const VOID: u8 = 5;
const UNKNOWN: u8 = 6;
const UNKNOWN_ID: u32 = 0x1A2B3C4D;

/// One element of the test encoding: a tag byte, a total length byte, then filler.
fn element(tag: u8, len: usize) -> Vec<u8> {
    assert!(len >= 2 && len <= 255);
    let mut v = vec![tag, len as u8];
    v.resize(len, 0);
    v
}

fn prelude(bytes: &[u8], tag: u8) -> Option<usize> {
    if bytes.len() >= 2 && bytes[0] == tag && bytes.len() >= bytes[1] as usize {
        Some(bytes[1] as usize)
    } else {
        None
    }
}

fn grammar(bytes: &[u8]) -> Decoded {
    if bytes.len() < 2 || bytes.len() < bytes[1] as usize {
        return Decoded::NeedMoreBytes;
    }
    let len = bytes[1] as usize;
    let kind = match bytes[0] {
        SEEK_HEAD => ElementKind::SeekHead,
        INFO => ElementKind::Info,
        TRACKS => ElementKind::Tracks,
        CLUSTER => ElementKind::Cluster,
        VOID => ElementKind::Void((len - 2) as u64),
        UNKNOWN => ElementKind::Unknown(UNKNOWN_ID, Some(len - 2)),
        t => return Decoded::Failure(format!("bad tag {}", t)),
    };
    Decoded::Element(len, kind)
}

enum End {
    Finished(Result<(), InfoError>),
    Saturated,
}

/// Runs a scan over `file` as the program does; reads after the first bring at most
/// `chunk` bytes.
fn scan(file: &[u8], capacity: usize, chunk: usize) -> (End, Scanner, usize) {
    let (mut s, mut action) = Scanner::new(capacity);
    let mut read = 0;
    let mut decodes = 0;
    loop {
        action = match action {
            Action::Read(n) => {
                let limit = if read == 0 { n } else { n.min(chunk) };
                let end = file.len().min(read + limit);
                let bytes = file[read..end].to_vec();
                read = end;
                s.on_bytes(&bytes)
            }
            Action::DecodeHeader => {
                let d = prelude(s.readable(), HEADER);
                s.on_header(d)
            }
            Action::DecodeSegment => {
                let d = prelude(s.readable(), SEGMENT);
                s.on_segment(d)
            }
            Action::DecodeElement => {
                decodes += 1;
                let d = grammar(s.readable());
                s.on_element(d)
            }
            Action::Saturated => return (End::Saturated, s, decodes),
            Action::Done(r) => return (End::Finished(r), s, decodes),
        };
    }
}

fn file_of(parts: &[(u8, usize)]) -> Vec<u8> {
    let mut v = element(HEADER, 20);
    v.extend(element(SEGMENT, 12));
    for &(tag, len) in parts {
        v.extend(element(tag, len));
    }
    v
}

#[test]
fn scenario_metadata_then_end_of_file() {
    let file = file_of(&[(SEEK_HEAD, 40), (INFO, 50), (TRACKS, 60)]);
    let (end, s, _) = scan(&file, 4096, 4096);
    assert!(matches!(end, End::Finished(Ok(()))));
    assert_eq!(s.phase(), Phase::Clusters);
    assert!(s.metadata_complete());
    assert_eq!(s.slots().seek_head, Some(32));
    assert_eq!(s.slots().info, Some(72));
    assert_eq!(s.slots().tracks, Some(122));
    assert_eq!(s.position(), file.len());
}

#[test]
fn scenario_info_twice() {
    let file = file_of(&[(SEEK_HEAD, 40), (INFO, 50), (INFO, 50), (TRACKS, 60)]);
    let (end, s, _) = scan(&file, 4096, 4096);
    assert!(matches!(end, End::Finished(Err(InfoError::InfoElement))));
    assert_eq!(s.slots().tracks, None);
    assert_eq!(s.position(), 122);
}

#[test]
fn scenario_unknown_element_in_cluster_phase() {
    let file = file_of(&[
        (SEEK_HEAD, 100),
        (INFO, 100),
        (TRACKS, 100),
        (CLUSTER, 200),
        (CLUSTER, 200),
        (CLUSTER, 200),
        (VOID, 68),
        (UNKNOWN, 30),
        (CLUSTER, 200),
    ]);
    let (end, _, _) = scan(&file, 4096, 4096);
    match end {
        End::Finished(Err(InfoError::UnknownElement(at, id, size))) => {
            assert_eq!(at, 1000);
            assert_eq!(id, UNKNOWN_ID);
            assert_eq!(size, Some(28));
        }
        _ => panic!("expected an unknown element error"),
    }
}

#[test]
fn scenario_saturated_after_metadata() {
    let file = file_of(&[(SEEK_HEAD, 10), (INFO, 10), (TRACKS, 10), (CLUSTER, 200)]);
    let (end, s, _) = scan(&file, 100, 100);
    assert!(matches!(end, End::Saturated));
    assert!(s.metadata_complete());
    assert_eq!(s.phase(), Phase::Clusters);
    assert!(s.saturated_result().is_ok());
}

#[test]
fn scenario_saturated_in_metadata() {
    let file = file_of(&[(SEEK_HEAD, 10), (INFO, 200), (TRACKS, 10)]);
    let (end, s, _) = scan(&file, 100, 100);
    assert!(matches!(end, End::Saturated));
    assert!(!s.metadata_complete());
    assert_eq!(s.phase(), Phase::Metadata);
    assert!(matches!(s.saturated_result(), Err(InfoError::NoMoreData)));
}

#[test]
fn singletons_in_any_order_among_voids() {
    let orders = [
        [SEEK_HEAD, INFO, TRACKS],
        [SEEK_HEAD, TRACKS, INFO],
        [INFO, SEEK_HEAD, TRACKS],
        [INFO, TRACKS, SEEK_HEAD],
        [TRACKS, SEEK_HEAD, INFO],
        [TRACKS, INFO, SEEK_HEAD],
    ];
    for order in orders.iter() {
        let parts = [(VOID, 3), (order[0], 20), (VOID, 2), (VOID, 9), (order[1], 20), (order[2], 20)];
        let (end, s, _) = scan(&file_of(&parts), 4096, 7);
        assert!(matches!(end, End::Finished(Ok(()))));
        assert!(s.metadata_complete());
    }
}

#[test]
fn duplicate_seek_head_and_tracks() {
    let (end, _, _) = scan(&file_of(&[(SEEK_HEAD, 20), (VOID, 4), (SEEK_HEAD, 20)]), 4096, 4096);
    assert!(matches!(end, End::Finished(Err(InfoError::SeekHeadElement))));
    let (end, _, _) = scan(&file_of(&[(TRACKS, 20), (INFO, 20), (TRACKS, 20)]), 4096, 4096);
    assert!(matches!(end, End::Finished(Err(InfoError::TracksElement))));
}

#[test]
fn cluster_before_metadata_complete() {
    let (end, _, _) = scan(&file_of(&[(SEEK_HEAD, 20), (INFO, 20), (CLUSTER, 20), (TRACKS, 20)]), 4096, 4096);
    match end {
        End::Finished(Err(InfoError::UnexpectedElement(t))) => assert_eq!(t, "cluster"),
        _ => panic!("expected an unexpected element error"),
    }
    let (end, _, _) = scan(&file_of(&[(UNKNOWN, 20)]), 4096, 4096);
    match end {
        End::Finished(Err(InfoError::UnexpectedElement(t))) => assert_eq!(t, "unknown element"),
        _ => panic!("expected an unexpected element error"),
    }
}

#[test]
fn metadata_element_after_metadata_phase() {
    let file = file_of(&[(SEEK_HEAD, 20), (INFO, 20), (TRACKS, 20), (CLUSTER, 20), (INFO, 20)]);
    let (end, _, _) = scan(&file, 4096, 4096);
    match end {
        End::Finished(Err(InfoError::UnexpectedElement(t))) => {
            assert_eq!(t, "seek head, info or tracks element")
        }
        _ => panic!("expected an unexpected element error"),
    }
}

#[test]
fn end_of_file_inside_metadata() {
    let (end, _, _) = scan(&file_of(&[(SEEK_HEAD, 20), (INFO, 20)]), 4096, 4096);
    assert!(matches!(end, End::Finished(Err(InfoError::NoMoreData))));
}

#[test]
fn bad_header_and_bad_segment() {
    let (end, _, _) = scan(&[9, 9, 9], 4096, 4096);
    assert!(matches!(end, End::Finished(Err(InfoError::ParseHeader))));
    let mut file = element(HEADER, 20);
    file.extend(element(CLUSTER, 12));
    let (end, _, _) = scan(&file, 4096, 4096);
    assert!(matches!(end, End::Finished(Err(InfoError::ParseHeader))));
}

#[test]
fn grammar_failure_is_parse_error() {
    let (end, _, _) = scan(&file_of(&[(SEEK_HEAD, 20), (99, 20)]), 4096, 4096);
    match end {
        End::Finished(Err(InfoError::Parse(t))) => assert_eq!(t, "bad tag 99"),
        _ => panic!("expected a parse error"),
    }
}

#[test]
fn partial_elements_are_retried() {
    let file = file_of(&[(SEEK_HEAD, 50), (INFO, 50), (TRACKS, 50), (CLUSTER, 40)]);
    let (end, s, decodes) = scan(&file, 64, 16);
    assert!(matches!(end, End::Finished(Ok(()))));
    assert_eq!(s.position(), file.len());
    assert!(decodes > 4);
}

#[test]
fn need_more_bytes_keeps_cursors() {
    let (mut s, a) = Scanner::new(64);
    assert!(matches!(a, Action::Read(64)));
    let mut head = element(HEADER, 20);
    head.extend(element(SEGMENT, 12));
    assert!(matches!(s.on_bytes(&head), Action::DecodeHeader));
    assert!(matches!(s.on_header(Some(20)), Action::DecodeSegment));
    assert_eq!(s.position(), 20);
    let a = s.on_segment(Some(12));
    assert!(matches!(a, Action::Read(32)));
    assert_eq!(s.position(), 32);
    assert!(matches!(s.on_bytes(&[SEEK_HEAD, 30, 0, 0]), Action::DecodeElement));
    let a = s.on_element(Decoded::NeedMoreBytes);
    assert_eq!(s.position(), 32);
    assert_eq!(s.readable(), &[SEEK_HEAD, 30, 0, 0][..]);
    assert!(matches!(a, Action::Read(28)));
    let rest = vec![0u8; 26];
    assert!(matches!(s.on_bytes(&rest), Action::DecodeElement));
    assert_eq!(s.readable().len(), 30);
    let a = s.on_element(Decoded::Element(30, ElementKind::SeekHead));
    assert_eq!(s.position(), 62);
    assert_eq!(s.slots().seek_head, Some(32));
    assert!(matches!(a, Action::Read(_)));
}

#[test]
fn zero_capacity_saturates_at_once() {
    let (_, a) = Scanner::new(0);
    assert!(matches!(a, Action::Saturated));
}

#[test]
fn buffer_keeps_unread_bytes() {
    let mut b = StreamBuffer::new(10);
    assert_eq!(b.available_space(), 10);
    b.fill(&[1, 2, 3, 4]);
    assert_eq!(b.readable(), &[1, 2, 3, 4][..]);
    b.consume(1);
    assert_eq!(b.readable(), &[2, 3, 4][..]);
    assert_eq!(b.available_data() + b.available_space(), 9);
    b.fill(&[5, 6, 7, 8, 9, 10]);
    assert_eq!(b.readable(), &[2, 3, 4, 5, 6, 7, 8, 9, 10][..]);
    assert!(b.available_data() + b.available_space() <= 10);
    b.compact();
    assert_eq!(b.readable(), &[2, 3, 4, 5, 6, 7, 8, 9, 10][..]);
    assert_eq!(b.available_space(), 1);
    assert_eq!(b.available_data(), 9);
}

#[test]
fn slots_accept_each_singleton_once() {
    let s = MetadataSlots::empty();
    let s = s.accept(ElementKind::Void(4), 0).unwrap();
    let s = s.accept(ElementKind::Tracks, 7).unwrap();
    assert_eq!(s.tracks, Some(7));
    assert!(!s.is_complete());
    assert!(matches!(s.accept(ElementKind::Tracks, 9), Err(InfoError::TracksElement)));
    let s = s.accept(ElementKind::Info, 9).unwrap();
    let s = s.accept(ElementKind::SeekHead, 11).unwrap();
    assert!(s.is_complete());
}

#[test]
fn cluster_phase_checks() {
    assert!(check_cluster_element(ElementKind::Cluster, 5).is_ok());
    assert!(check_cluster_element(ElementKind::Void(2), 5).is_ok());
    assert!(matches!(
        check_cluster_element(ElementKind::Unknown(0xEC, None), 77),
        Err(InfoError::UnknownElement(77, 0xEC, None))
    ));
    assert!(matches!(
        check_cluster_element(ElementKind::Tracks, 5),
        Err(InfoError::UnexpectedElement(_))
    ));
}

#[test]
fn reported_elements_follow_the_phase() {
    let (mut s, _) = Scanner::new(64);
    assert!(!s.reports(&ElementKind::Void(1)));
    let mut head = element(HEADER, 20);
    head.extend(element(SEGMENT, 12));
    s.on_bytes(&head);
    s.on_header(Some(20));
    s.on_segment(Some(12));
    assert!(s.reports(&ElementKind::Info));
    assert!(s.reports(&ElementKind::Void(3)));
    assert!(!s.reports(&ElementKind::Cluster));
    assert!(!s.reports(&ElementKind::Unknown(1, None)));
    s.on_bytes(&[INFO, 20]);
    s.on_element(Decoded::Element(2, ElementKind::Info));
    assert!(!s.reports(&ElementKind::Info));
    assert!(s.reports(&ElementKind::Tracks));
}
