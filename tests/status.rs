use std::path::PathBuf;

use tpksig_jni::boundary::{
    signing_block_result, verify_passed, verify_status, ExtractOutcome, VerifyOutcome,
};
use tpksig_jni::error::{status_code, ErrorKind, STATUS_OK, STATUS_OPEN_FAILED};

const ALL_KINDS: [(ErrorKind, i32); 19] = [
    (ErrorKind::Io, 2),
    (ErrorKind::ApkIsRaw, 3),
    (ErrorKind::NoSigner, 4),
    (ErrorKind::NoSignature, 5),
    (ErrorKind::NoDigest, 6),
    (ErrorKind::InvalidSignedData, 7),
    (ErrorKind::V3NotSupported, 8),
    (ErrorKind::VerificationFailed, 9),
    (ErrorKind::PubKeyError, 10),
    (ErrorKind::UnsupportedAlgorithm, 11),
    (ErrorKind::DigestMismatch, 12),
    (ErrorKind::InvalidApkStructure, 13),
    (ErrorKind::InvalidStartSignature, 14),
    (ErrorKind::InvalidEndSignature, 15),
    (ErrorKind::EocdNotFound, 16),
    (ErrorKind::InvalidEocd, 17),
    (ErrorKind::Format, 18),
    (ErrorKind::Signature, 19),
    (ErrorKind::Padding, 20),
];

#[test]
fn status_codes_follow_the_table() {
    for (kind, code) in ALL_KINDS {
        assert_eq!(status_code(kind), code, "{:?}", kind);
    }
}

#[test]
fn status_codes_are_distinct_and_never_success() {
    for (i, (a, _)) in ALL_KINDS.iter().enumerate() {
        assert_ne!(status_code(*a), STATUS_OK);
        assert_ne!(status_code(*a), STATUS_OPEN_FAILED);
        for (b, _) in ALL_KINDS.iter().skip(i + 1) {
            assert_ne!(status_code(*a), status_code(*b));
        }
    }
}

#[test]
fn every_engine_failure_reports_its_own_code() {
    for (kind, code) in ALL_KINDS {
        let o = VerifyOutcome::Checked(Err(kind));
        assert_eq!(verify_status(&o), code);
        assert!(!verify_passed(&o));
    }
}

#[test]
fn successful_check_reports_zero() {
    let o = VerifyOutcome::Checked(Ok(()));
    assert_eq!(verify_status(&o), 0);
    assert!(verify_passed(&o));
}

#[test]
fn unreadable_path_reports_one() {
    let o = VerifyOutcome::PathUnreadable;
    assert_eq!(verify_status(&o), 1);
    assert!(!verify_passed(&o));
    assert!(signing_block_result(&ExtractOutcome::PathUnreadable).is_none());
}

#[test]
fn missing_file_reports_one_and_no_graph() {
    let opened = tpksig::Tpk::new(PathBuf::from("/nonexistent/dir/package.tpk"));
    assert!(opened.is_err());
    let v = VerifyOutcome::OpenFailed;
    assert_eq!(verify_status(&v), 1);
    assert!(signing_block_result(&ExtractOutcome::OpenFailed).is_none());
}

#[test]
fn unsigned_archive_reports_three_and_no_graph() {
    let v = VerifyOutcome::Checked(Err(ErrorKind::ApkIsRaw));
    assert_eq!(verify_status(&v), 3);
    let e = ExtractOutcome::Extracted(Err(ErrorKind::ApkIsRaw));
    assert!(signing_block_result(&e).is_none());
}

#[test]
fn failed_extraction_gives_no_graph_for_any_kind() {
    for (kind, _) in ALL_KINDS {
        let e = ExtractOutcome::Extracted(Err(kind));
        assert!(signing_block_result(&e).is_none());
    }
}
