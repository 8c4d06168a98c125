use scannit_core::desfire::{assemble_frames, Command, Response};
use scannit_core::error::DecodeError;

#[test]
fn frames_are_stitched_without_trailers() {
    let payload_a = vec![1u8, 2, 3, 4];
    let payload_b = vec![5u8, 6];
    let mut chunk_a = payload_a.clone();
    chunk_a.extend(Response::MoreData.bytes());
    let mut chunk_b = payload_b.clone();
    chunk_b.extend(Response::OperationOk.bytes());
    assert!(Response::MoreData.ends(&chunk_a));
    assert!(!Response::MoreData.ends(&chunk_b));
    let assembled = assemble_frames(&vec![chunk_a, chunk_b]).unwrap();
    assert_eq!(assembled, vec![1u8, 2, 3, 4, 5, 6]);
}

#[test]
fn a_single_frame_loses_its_trailer() {
    assert_eq!(assemble_frames(&vec![vec![9u8, 8, 0x91, 0x00]]), Ok(vec![9u8, 8]));
    assert_eq!(assemble_frames(&vec![vec![0x91u8, 0x00]]), Ok(vec![]));
    assert_eq!(assemble_frames(&vec![]), Ok(vec![]));
}

#[test]
fn a_frame_without_a_trailer_is_rejected() {
    assert_eq!(assemble_frames(&vec![vec![1u8, 2, 0x91, 0xAF], vec![0x91u8]]), Err(DecodeError::OutOfRange));
}

#[test]
fn command_bytes() {
    assert_eq!(Command::SelectHsl.bytes(), vec![0x90u8, 0x5A, 0x00, 0x00, 0x03, 0x14, 0x20, 0xEF, 0x00]);
    assert_eq!(
        Command::ReadAppInfo.bytes(),
        vec![0x90u8, 0xBD, 0x00, 0x00, 0x07, 0x08, 0x00, 0x00, 0x00, 0x0B, 0x00, 0x00, 0x00]
    );
    assert_eq!(
        Command::ReadHistory.bytes(),
        vec![0x90u8, 0xBB, 0x00, 0x00, 0x07, 0x04, 0x00, 0x00, 0x00, 0x00, 0x00, 0x00, 0x00]
    );
    assert_eq!(Command::ReadNext.bytes(), vec![0x90u8, 0xAF, 0x00, 0x00, 0x00]);
    assert_eq!(Command::GetVersion.bytes(), vec![0x90u8, 0x60, 0x00, 0x00, 0x00]);
    assert_eq!(Command::GetApplicationIds.bytes(), vec![0x90u8, 0x6A, 0x00, 0x00, 0x00]);
}

#[test]
fn response_trailers() {
    assert_eq!(Response::OperationOk.bytes(), vec![0x91u8, 0x00]);
    assert_eq!(Response::Error.bytes(), vec![0x91u8, 0x9D]);
    assert_eq!(Response::MoreData.bytes(), vec![0x91u8, 0xAF]);
    assert!(Response::Error.matches(&[0x91, 0x9D]));
    assert!(!Response::Error.matches(&[0x91, 0x9D, 0x00]));
    assert!(!Response::OperationOk.matches(&[0x91, 0xAF]));
    assert!(!Response::OperationOk.ends(&[0x00]));
}
