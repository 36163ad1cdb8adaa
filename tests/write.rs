use std::path::PathBuf;

use litho::writer::FULL_RESOLUTION_SUFFIX;
use litho::{progress_label, Error, FileStep, Media, MediaMetadata, MediaWriter, WriteSession};

fn media(url: &str, name: &str, created: &str) -> Media {
    Media {
        id: String::from("abc123"),
        base_url: String::from(url),
        mime_type: String::from("image/jpeg"),
        media_metadata: MediaMetadata { creation_time: String::from(created) },
        filename: String::from(name),
    }
}

#[test]
fn destination_follows_the_creation_date() {
    let root = PathBuf::from("/tmp/photos");
    let writer = MediaWriter::new(&root);
    assert_eq!(&root, writer.album_dir);
    let d = writer
        .destination(&media("u", "test.jpg", "2014-10-02T15:01:23.045123456Z"))
        .unwrap();
    assert_eq!(("2014", "10", "02", "test.jpg"), (
        d.year.as_str(),
        d.month.as_str(),
        d.day.as_str(),
        d.file_name.as_str()
    ));
    let d = writer.destination(&media("u", "camping.jpg", "2014-10-03T15:01:23.045123456Z")).unwrap();
    assert_eq!("2014/10/03/camping.jpg", format!("{}/{}/{}/{}", d.year, d.month, d.day, d.file_name));
}

#[test]
fn unsafe_file_name_is_encoded() {
    let root = PathBuf::from("/tmp/photos");
    let writer = MediaWriter::new(&root);
    let d = writer.destination(&media("u", "0/1.jpg", "2014-10-02T15:01:23.045123456Z")).unwrap();
    assert_eq!("2014/10/02", format!("{}/{}/{}", d.year, d.month, d.day));
    assert_eq!("0%2F1.jpg", d.file_name);
    assert!(!d.file_name.contains('/'));
    let d = writer.destination(&media("u", "../a b~é.png", "2014-10-02T15:01:23Z")).unwrap();
    assert_eq!("..%2Fa%20b~%C3%A9.png", d.file_name);
}

#[test]
fn bad_timestamp_is_an_error() {
    let root = PathBuf::from("/tmp/photos");
    let writer = MediaWriter::new(&root);
    assert_eq!(Some(Error::SerError), writer.destination(&media("u", "a.jpg", "yesterday")).err());
}

#[test]
fn present_file_is_not_downloaded() {
    let root = PathBuf::from("/tmp/photos");
    let writer = MediaWriter::new(&root);
    let m = media("http://mock/v1/mediaItems/123", "test.jpg", "2014-10-02T15:01:23Z");
    assert!(matches!(writer.file_step(true, &m), FileStep::Present));
    match writer.file_step(false, &m) {
        FileStep::Download(u) => {
            assert_eq!(format!("http://mock/v1/mediaItems/123{}", FULL_RESOLUTION_SUFFIX), u);
            assert_eq!("http://mock/v1/mediaItems/123=d", u);
        },
        FileStep::Present => panic!("expected a download"),
    }
}

#[test]
fn limit_keeps_only_the_first_items() {
    let mut s = WriteSession::new(1);
    assert_eq!(1, s.take_batch(2));
    assert_eq!(1, s.count);
    s.record(4);
    assert_eq!(0, s.take_batch(3));
    assert_eq!(4, s.written);
}

#[test]
fn limit_spans_batches() {
    let mut s = WriteSession::new(2);
    assert_eq!(1, s.take_batch(1));
    assert_eq!(1, s.take_batch(5));
    assert_eq!(0, s.take_batch(5));
    s.record(4);
    s.record(4);
    assert_eq!(8, s.written);
    let mut open = WriteSession::new(u32::MAX);
    assert_eq!(0, open.take_batch(0));
    assert_eq!(7, open.take_batch(7));
}

#[test]
fn progress_marks() {
    assert_eq!("[1/\u{221E}]", progress_label(1, u32::MAX));
    assert_eq!("[2/5]", progress_label(2, 5));
    assert_eq!("[10/100]", progress_label(10, 100));
}
