//! Tests of the custom I/O bridges: hinted claims, fallbacks, and the
//! opener/closer pairing.

use assimp::error::AiError;
use assimp::io::default::{default_close_proc, default_open_proc, DefaultOpen, DefaultIO};
use assimp::io::hinted::HintedOpen;
use assimp::io::mem::MemStream;
use assimp::io::multi::{multi_stream_open_proc, to_stream, to_write_stream, MultiStreamIO};
use assimp::io::read_only::{ro_stream_open_proc, ReadOnlyStreamIO};
use assimp::io::stream::{stream_close_proc, stream_open_proc, StreamIO};
use assimp::io::{close_proc, open_proc, CustomIO, ReadOnlyStream};
use assimp::scene::Scene;

#[test]
fn hinted_stream_claimed_for_matching_path() {
    let stream = MemStream::new(vec![1, 2, 3]);
    let mut io = StreamIO::new(stream, Some("model.dae"));
    match stream_open_proc(&mut io, b"model.dae") {
        HintedOpen::Claimed(file) => {
            assert_eq!(file.stream.bytes(), &vec![1, 2, 3]);
        },
        _ => panic!("hinted path should claim the stream"),
    }
}

#[test]
fn hinted_stream_claimed_at_most_once() {
    let stream = MemStream::new(vec![1, 2, 3]);
    let mut io = StreamIO::new(stream, Some("model.dae"));
    let first = stream_open_proc(&mut io, b"model.dae");
    assert!(matches!(first, HintedOpen::Claimed(_)));
    // A second open of the very same path must fall back to a real file.
    let second = stream_open_proc(&mut io, b"model.dae");
    assert!(matches!(second, HintedOpen::Fallback));
    let third = stream_open_proc(&mut io, b"model.dae");
    assert!(matches!(third, HintedOpen::Fallback));
}

#[test]
fn unhinted_path_falls_back() {
    let stream = MemStream::new(vec![9]);
    let mut io = StreamIO::new(stream, Some("model.dae"));
    assert!(matches!(
        stream_open_proc(&mut io, b"texture.png"),
        HintedOpen::Fallback
    ));
    // The miss must not consume the hinted stream.
    match stream_open_proc(&mut io, b"model.dae") {
        HintedOpen::Claimed(file) => assert_eq!(file.stream.bytes(), &vec![9]),
        _ => panic!("stream should still be available after a miss"),
    }
}

#[test]
fn nohint_bridge_always_falls_back() {
    let stream = MemStream::new(vec![7]);
    let mut io = StreamIO::new_nohint(stream);
    assert!(matches!(stream_open_proc(&mut io, b"a.obj"), HintedOpen::Fallback));
    assert!(matches!(stream_open_proc(&mut io, b"b.obj"), HintedOpen::Fallback));
}

#[test]
fn undecodable_path_is_refused() {
    let stream = MemStream::new(vec![7]);
    let mut io = StreamIO::new(stream, Some("model.dae"));
    assert!(matches!(
        stream_open_proc(&mut io, &[0xff, 0xfe, b'a']),
        HintedOpen::BadPath
    ));
}

#[test]
fn hinted_buffer_consumed_in_memory() {
    // An in-memory buffer hinted to "model.dae": importing that path reads
    // the buffer, and no real file is involved anywhere.
    let stream = MemStream::new(vec![10, 20, 30, 40]);
    let mut io = ReadOnlyStreamIO::new(stream, Some("model.dae"));
    let mut file = match ro_stream_open_proc(&mut io, b"model.dae") {
        HintedOpen::Claimed(file) => file,
        _ => panic!("hinted path should claim the buffer"),
    };
    assert_eq!(file.stream.get_ref().reads(), 0);
    let mut buf = vec![0u8; 4];
    let n = assimp::io::procs::read_proc(&mut file, &mut buf);
    assert_eq!(n, 4);
    assert_eq!(buf, vec![10, 20, 30, 40]);
    assert_eq!(file.stream.get_ref().reads(), 1);
    assimp::io::read_only::ro_stream_close_proc(&mut io, file);
}

#[test]
fn read_only_bridge_ignores_writes() {
    let stream = MemStream::new(vec![5, 6]);
    let mut io = ReadOnlyStreamIO::new(stream, Some("model.dae"));
    let mut file = match ro_stream_open_proc(&mut io, b"model.dae") {
        HintedOpen::Claimed(file) => file,
        _ => panic!("hinted path should claim the buffer"),
    };
    let written = assimp::io::procs::write_proc(&mut file, &[1, 2, 3]);
    assert_eq!(written, 0);
    assert_eq!(file.stream.get_ref().bytes(), &vec![5, 6]);
}

#[test]
fn callback_bridge_open_and_close() {
    let mut io = CustomIO::callback(|_path: &str| Ok(MemStream::new(vec![1, 2])));
    let file = open_proc(&mut io, b"anything.obj").expect("callback accepts every path");
    assert_eq!(file.stream.bytes(), &vec![1, 2]);
    assert!(close_proc(&mut io, file));
}

#[test]
fn callback_bridge_error_gives_invalid_scene() {
    // A callback that refuses "missing.fbx" leaves the opener with nothing
    // to serve; the engine then reports a null scene, and the import
    // surfaces the coarse invalid-scene error.
    let mut io = CustomIO::callback(|path: &str| {
        if path == "missing.fbx" {
            Err(AiError::Io("no such file".to_owned()))
        } else {
            Ok(MemStream::new(vec![]))
        }
    });
    assert!(open_proc(&mut io, b"missing.fbx").is_none());
    let imported = Scene::check_import(None);
    assert!(matches!(imported, Err(AiError::InvalidScene)));
}

#[test]
fn default_bridge_always_opens_real_files() {
    let mut io = DefaultIO::new();
    assert!(matches!(default_open_proc(&mut io, b"mesh.obj"), DefaultOpen::Fallback));
    assert!(matches!(default_open_proc(&mut io, b"other.dae"), DefaultOpen::Fallback));
    assert!(matches!(default_open_proc(&mut io, &[0x80]), DefaultOpen::BadPath));
}

#[test]
fn default_bridge_open_close_pairing() {
    let mut io = DefaultIO::new();
    assert!(matches!(default_open_proc(&mut io, b"mesh.obj"), DefaultOpen::Fallback));
    let file = io.make_file(MemStream::new(vec![1]));
    default_close_proc(&mut io, file);
}

#[test]
fn stream_bridge_fallback_record_roundtrip() {
    let mut io = StreamIO::new(MemStream::new(vec![1]), Some("model.dae"));
    assert!(matches!(stream_open_proc(&mut io, b"aux.png"), HintedOpen::Fallback));
    let mut file = io.make_fallback_file(MemStream::new(vec![4, 5, 6]));
    let mut buf = vec![0u8; 2];
    assert_eq!(assimp::io::procs::read_proc(&mut file, &mut buf), 2);
    assert_eq!(buf, vec![4, 5]);
    stream_close_proc(&mut io, file);
}

#[test]
fn multi_bridge_tags_records_per_path() {
    let mut io = MultiStreamIO::new(|path: &str| {
        if path == "readme.txt" {
            Ok(to_stream(MemStream::new(vec![1, 2])))
        } else if path == "out.bin" {
            Ok(to_write_stream(MemStream::new(vec![])))
        } else {
            Err(AiError::Io("unknown".to_owned()))
        }
    });
    let mut read_file = multi_stream_open_proc(&mut io, b"readme.txt").unwrap();
    // A read-tagged record ignores writes.
    assert_eq!(assimp::io::procs::write_proc(&mut read_file, &[9]), 0);
    let mut buf = vec![0u8; 2];
    assert_eq!(assimp::io::procs::read_proc(&mut read_file, &mut buf), 2);
    assert_eq!(buf, vec![1, 2]);

    let mut write_file = multi_stream_open_proc(&mut io, b"out.bin").unwrap();
    // A write-tagged record writes through.
    assert_eq!(assimp::io::procs::write_proc(&mut write_file, &[7, 8]), 2);

    assert!(multi_stream_open_proc(&mut io, b"missing.bin").is_none());
    assimp::io::multi::multi_stream_close_proc(&mut io, read_file);
    assimp::io::multi::multi_stream_close_proc(&mut io, write_file);
}

#[test]
fn read_only_wrapper_accessors() {
    let mut ro = ReadOnlyStream::new(MemStream::new(vec![1, 2, 3]));
    assert_eq!(ro.get_ref().bytes(), &vec![1, 2, 3]);
    assert_eq!(ro.get_mut().reads(), 0);
    let inner = ro.into_inner();
    assert_eq!(inner.bytes(), &vec![1, 2, 3]);
}
