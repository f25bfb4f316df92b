use git_filter::buf::{FilterBuf, RawBuf};
use git_filter::mode::FilterMode;
use git_filter::oid::Oid;
use git_filter::payload::FilterPayload;
use git_filter::source::{FilterSource, RawSource, Repository};

fn source(raw: RawSource) -> FilterSource {
    assert!(FilterMode::try_from_raw(raw.mode).is_some());
    FilterSource::from_raw(raw)
}

#[test]
fn source_reports_what_the_engine_gave() {
    let id = Oid::from_bytes(&[3u8; 20]).unwrap();
    let src = source(RawSource {
        id: Some(id),
        mode: 1,
        path: Some(b"dir/a.txt".to_vec()),
        filemode: 0o100644,
        repo: 0x1000,
    });
    assert_eq!(src.id().unwrap().as_bytes(), &[3u8; 20][..]);
    assert_eq!(src.mode(), FilterMode::Clean);
    assert_eq!(src.path_bytes(), Some(&b"dir/a.txt"[..]));
    assert_eq!(src.path().unwrap().as_bytes(), b"dir/a.txt");
    assert_eq!(src.filemode(), Some(0o100644));
    assert_eq!(src.repo().handle(), 0x1000);
}

#[test]
fn source_surfaces_absence() {
    let src = source(RawSource { id: None, mode: 0, path: None, filemode: 0, repo: 1 });
    assert!(src.id().is_none());
    assert_eq!(src.mode(), FilterMode::Smudge);
    assert!(src.path_bytes().is_none());
    assert!(src.path().is_none());
    assert_eq!(src.filemode(), None);
}

#[test]
fn source_filemode_is_absent_only_for_zero() {
    for fm in [1u16, 0o755, 0o100755, u16::MAX] {
        let src = source(RawSource { id: None, mode: 0, path: None, filemode: fm, repo: 1 });
        assert_eq!(src.filemode(), Some(fm));
    }
}

#[test]
fn source_path_may_hold_any_bytes() {
    let src = source(RawSource {
        id: None,
        mode: 0,
        path: Some(vec![0xff, b'/', 0x80]),
        filemode: 0,
        repo: 1,
    });
    assert_eq!(src.path_bytes(), Some(&[0xff, b'/', 0x80][..]));
    assert_eq!(src.path().unwrap().as_bytes(), &[0xff, b'/', 0x80][..]);
    let empty = source(RawSource { id: None, mode: 0, path: Some(vec![]), filemode: 0, repo: 1 });
    assert_eq!(empty.path_bytes(), Some(&[][..]));
}

#[test]
fn repository_keeps_its_handle() {
    let repo = Repository::from_handle(42);
    assert_eq!(repo.handle(), 42);
    assert_eq!(repo, Repository::from_handle(42));
}

#[test]
fn buf_empty_has_no_bytes() {
    let buf = FilterBuf::from_raw(None);
    assert_eq!(buf.as_bytes(), &[] as &[u8]);
    let (raw, data) = buf.into_raw();
    assert_eq!(raw, RawBuf { present: false, size: 0 });
    assert!(data.is_none());
}

#[test]
fn buf_populated_shows_the_engine_bytes() {
    let buf = FilterBuf::from_raw(Some(b"abc".to_vec()));
    assert_eq!(buf.as_bytes(), b"abc");
    let (raw, data) = buf.into_raw();
    assert_eq!(raw, RawBuf { present: true, size: 3 });
    assert_eq!(data, Some(b"abc".to_vec()));
}

#[test]
fn buf_populated_with_no_bytes_is_not_empty() {
    let buf = FilterBuf::from_raw(Some(Vec::new()));
    assert_eq!(buf.as_bytes(), &[] as &[u8]);
    let (raw, data) = buf.into_raw();
    assert_eq!(raw, RawBuf { present: true, size: 0 });
    assert_eq!(data, Some(Vec::new()));
}

#[test]
fn buf_write_to_empty_materializes_a_sequence() {
    let mut buf = FilterBuf::from_raw(None);
    assert!(buf.as_allocated_vec().is_empty());
    buf.as_allocated_vec().extend_from_slice(b"hello");
    assert_eq!(buf.as_bytes(), b"hello");
    buf.as_allocated_vec().push(b'!');
    assert_eq!(buf.as_bytes(), b"hello!");
    let (raw, data) = buf.into_raw();
    assert_eq!(raw, RawBuf { present: true, size: 6 });
    assert_eq!(data, Some(b"hello!".to_vec()));
}

#[test]
fn buf_engine_sees_the_final_write() {
    let mut buf = FilterBuf::from_raw(Some(b"abc".to_vec()));
    buf.as_allocated_vec().extend_from_slice(b"defgh");
    buf.sync();
    buf.as_allocated_vec().truncate(2);
    let (raw, data) = buf.into_raw();
    assert_eq!(raw, RawBuf { present: true, size: 2 });
    assert_eq!(data, Some(b"ab".to_vec()));
}

#[test]
fn buf_sync_keeps_the_bytes() {
    let mut buf = FilterBuf::from_raw(Some(b"xyz".to_vec()));
    buf.sync();
    assert_eq!(buf.as_bytes(), b"xyz");
    let mut empty = FilterBuf::from_raw(None);
    empty.sync();
    assert_eq!(empty.as_bytes(), b"");
    assert_eq!(empty.into_raw().0, RawBuf { present: false, size: 0 });
}

#[test]
fn payload_opens_on_the_slot() {
    let cell: FilterPayload<u32> = FilterPayload::from_raw(None);
    assert!(cell.inner().is_none());
    assert!(cell.into_raw().is_none());
    let cell = FilterPayload::from_raw(Some(Box::new(5u32)));
    assert_eq!(cell.inner().map(|b| **b), Some(5));
    assert_eq!(cell.into_raw(), Some(Box::new(5)));
}

#[test]
fn payload_replace_installs_and_drops_the_old() {
    let mut cell: FilterPayload<String> = FilterPayload::from_raw(None);
    cell.replace("one".to_string());
    assert_eq!(cell.inner().map(|b| b.as_str()), Some("one"));
    cell.replace("two".to_string());
    assert_eq!(cell.inner().map(|b| b.as_str()), Some("two"));
    assert_eq!(cell.into_raw(), Some(Box::new("two".to_string())));
}

#[test]
fn payload_take_hands_over_once() {
    let mut cell = FilterPayload::from_raw(Some(Box::new(9u8)));
    assert_eq!(cell.take(), Some(Box::new(9)));
    assert_eq!(cell.take(), None);
    assert!(cell.inner().is_none());
    assert!(cell.inner_mut().is_none());
    assert!(cell.into_raw().is_none());
}

#[test]
fn payload_inner_mut_writes_through() {
    let mut cell = FilterPayload::from_raw(Some(Box::new(vec![1u8])));
    cell.inner_mut().unwrap().push(2);
    assert_eq!(cell.inner().map(|b| b.as_slice()), Some(&[1u8, 2][..]));
    **cell.inner_mut().unwrap() = vec![7];
    assert_eq!(cell.into_raw(), Some(Box::new(vec![7u8])));
}

#[test]
fn payload_survives_the_trip_through_the_slot() {
    let mut check: FilterPayload<u32> = FilterPayload::from_raw(None);
    check.replace(42);
    let slot = check.into_raw();
    let apply = FilterPayload::from_raw(slot);
    assert_eq!(apply.inner().map(|b| **b), Some(42));
    let slot = apply.into_raw();
    let mut cleanup = FilterPayload::from_raw(slot);
    assert_eq!(cleanup.take(), Some(Box::new(42)));

    let untouched: FilterPayload<u32> = FilterPayload::from_raw(None);
    let mut cleanup = FilterPayload::from_raw(untouched.into_raw());
    assert_eq!(cleanup.take(), None);
}
