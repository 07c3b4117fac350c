//! Tests of the stream operations behind a file record: read, write, seek,
//! tell, size.

use assimp::error::AiError;
use assimp::io::mem::MemStream;
use assimp::io::procs::{
    flush_proc, read_proc, seek_proc, tell_proc, tell_size_proc, write_proc,
};
use assimp::io::read_only::AiReadOnlyStream;
use assimp::io::stream::StreamIO;
use assimp::native::{SeekFrom, AI_FAILURE, AI_ORIGIN_CUR, AI_ORIGIN_END, AI_ORIGIN_SET, AI_SUCCESS};

fn record_over(data: Vec<u8>) -> (StreamIO<MemStream>, assimp::native::AiFile<MemStream>) {
    let mut io = StreamIO::new_nohint(MemStream::new(vec![]));
    let file = io.make_fallback_file(MemStream::new(data));
    (io, file)
}

#[test]
fn size_reports_length_and_keeps_position() {
    let (_io, mut file) = record_over(vec![1, 2, 3, 4, 5]);
    assert_eq!(seek_proc(&mut file, 2, AI_ORIGIN_SET), AI_SUCCESS);
    // The three-seek dance is observationally transparent.
    assert_eq!(tell_size_proc(&mut file), 5);
    assert_eq!(tell_proc(&mut file), 2);
    assert_eq!(tell_size_proc(&mut file), 5);
    assert_eq!(tell_proc(&mut file), 2);
}

#[test]
fn seek_start_then_tell_reports_offset() {
    let (_io, mut file) = record_over(vec![0; 10]);
    for n in [0u64, 1, 5, 10] {
        assert_eq!(seek_proc(&mut file, n, AI_ORIGIN_SET), AI_SUCCESS);
        assert_eq!(tell_proc(&mut file), n);
    }
    assert_eq!(seek_proc(&mut file, 11, AI_ORIGIN_SET), AI_FAILURE);
}

#[test]
fn seek_origins() {
    let (_io, mut file) = record_over(vec![0; 8]);
    assert_eq!(seek_proc(&mut file, 4, AI_ORIGIN_SET), AI_SUCCESS);
    assert_eq!(seek_proc(&mut file, 2, AI_ORIGIN_CUR), AI_SUCCESS);
    assert_eq!(tell_proc(&mut file), 6);
    assert_eq!(seek_proc(&mut file, -3i64 as u64, AI_ORIGIN_END), AI_SUCCESS);
    assert_eq!(tell_proc(&mut file), 5);
    assert_eq!(seek_proc(&mut file, 1, AI_ORIGIN_END), AI_FAILURE);
    assert_eq!(tell_proc(&mut file), 5);
}

#[test]
fn read_advances_and_stops_at_end() {
    let (_io, mut file) = record_over(vec![10, 11, 12]);
    let mut buf = vec![0u8; 2];
    assert_eq!(read_proc(&mut file, &mut buf), 2);
    assert_eq!(buf, vec![10, 11]);
    assert_eq!(read_proc(&mut file, &mut buf), 1);
    assert_eq!(buf, vec![12, 11]);
    assert_eq!(read_proc(&mut file, &mut buf), 0);
}

#[test]
fn write_overwrites_and_extends() {
    let (_io, mut file) = record_over(vec![1, 2, 3]);
    assert_eq!(seek_proc(&mut file, 2, AI_ORIGIN_SET), AI_SUCCESS);
    assert_eq!(write_proc(&mut file, &[8, 9]), 2);
    assert_eq!(file.stream.bytes(), &vec![1, 2, 8, 9]);
    assert_eq!(tell_proc(&mut file), 4);
    assert!(flush_proc(&mut file));
}

#[test]
fn mem_stream_counts_reads() {
    let mut stream = MemStream::new(vec![1, 2, 3]);
    assert_eq!(stream.reads(), 0);
    let mut buf = vec![0u8; 1];
    stream.read(&mut buf);
    stream.read(&mut buf);
    assert_eq!(stream.reads(), 2);
    assert_eq!(stream.into_bytes(), vec![1, 2, 3]);
}

#[test]
fn seek_outside_stream_is_an_io_error() {
    let mut stream = MemStream::new(vec![1, 2, 3]);
    match stream.seek(SeekFrom::Start(4)) {
        Err(AiError::Io(_)) => {},
        other => panic!("expected an I/O error, got {:?}", other),
    }
    assert!(matches!(stream.seek(SeekFrom::Current(-1)), Err(AiError::Io(_))));
    assert_eq!(stream.seek(SeekFrom::End(-1)), Ok(2));
}

#[test]
fn error_messages() {
    assert_eq!(
        AiError::InvalidScene.message(),
        "scene is invalid or failed to import"
    );
    assert_eq!(AiError::NulError.message(), "string holds an interior NUL byte");
    assert_eq!(
        AiError::Io(String::from("x")).message(),
        "handler failed to open the path"
    );
}
