use bcid::download::{check_download_size, finish_downloads, plan_resume, ResumePlan};
use bcid::{DownloadCoversError, DownloadError, DownloadErrorInner};

#[test]
fn complete_file_is_skipped() {
    assert_eq!(plan_resume(Some(100), 100), ResumePlan::AlreadyComplete);
    assert_eq!(plan_resume(Some(0), 0), ResumePlan::AlreadyComplete);
}

#[test]
fn partial_file_is_resumed_from_its_end() {
    assert_eq!(plan_resume(Some(40), 100), ResumePlan::Fetch { start: 40, length: 60 });
    assert_eq!(plan_resume(Some(0), 100), ResumePlan::Fetch { start: 0, length: 100 });
}

#[test]
fn missing_file_is_fetched_whole() {
    assert_eq!(plan_resume(None, 100), ResumePlan::Fetch { start: 0, length: 100 });
    assert_eq!(plan_resume(None, 0), ResumePlan::NothingToFetch { start: 0 });
}

#[test]
fn oversized_file_is_left_alone() {
    assert_eq!(plan_resume(Some(150), 100), ResumePlan::NothingToFetch { start: 150 });
}

#[test]
fn resume_then_rerun_skips() {
    for (existing, total) in [(None, 7u64), (Some(3), 7), (Some(0), 1)] {
        if let ResumePlan::Fetch { start, length } = plan_resume(existing, total) {
            assert_eq!(start + length, total);
            assert!(check_download_size(start + length, total).is_ok());
            assert_eq!(plan_resume(Some(start + length), total), ResumePlan::AlreadyComplete);
        } else {
            panic!("expected a fetch");
        }
    }
}

#[test]
fn size_check() {
    assert!(check_download_size(10, 10).is_ok());
    assert!(matches!(check_download_size(9, 10), Err(DownloadErrorInner::CorruptDownload)));
    assert!(matches!(check_download_size(11, 10), Err(DownloadErrorInner::CorruptDownload)));
}

#[test]
fn all_downloads_succeeded() {
    let files = vec![1, 2, 3];
    let results = vec![("/ipfs/a".to_string(), Ok(())), ("/ipfs/b".to_string(), Ok(()))];
    assert_eq!(finish_downloads(files, results).unwrap(), vec![1, 2, 3]);
    let none: Vec<(String, Result<(), DownloadErrorInner>)> = Vec::new();
    assert_eq!(finish_downloads(vec!["x"], none).unwrap(), vec!["x"]);
}

#[test]
fn failed_downloads_are_reported_in_order() {
    let results = vec![
        ("/ipfs/a".to_string(), Err(DownloadErrorInner::CorruptDownload)),
        ("/ipfs/b".to_string(), Ok(())),
        ("/ipfs/c".to_string(), Err(DownloadErrorInner::IoError(std::io::Error::new(std::io::ErrorKind::Other, "disk")))),
    ];
    match finish_downloads(vec![(); 3], results) {
        Err(DownloadCoversError::DownloadErrors(errors)) => {
            assert_eq!(errors.len(), 2);
            assert_eq!(errors[0].cid, "/ipfs/a");
            assert!(matches!(errors[0].error, DownloadErrorInner::CorruptDownload));
            assert_eq!(errors[1].cid, "/ipfs/c");
            assert!(matches!(errors[1].error, DownloadErrorInner::IoError(_)));
        }
        _ => panic!("expected download errors"),
    }
}

#[test]
fn download_error_from_inner() {
    let e = DownloadError::from("/ipfs/x", DownloadErrorInner::CorruptDownload);
    assert_eq!(e.cid, "/ipfs/x");
    assert!(matches!(e.error, DownloadErrorInner::CorruptDownload));
    let io = DownloadError::from("/ipfs/y", std::io::Error::new(std::io::ErrorKind::Other, "x"));
    assert!(matches!(io.error, DownloadErrorInner::IoError(_)));
    let covers: DownloadCoversError = e.into();
    assert!(matches!(covers, DownloadCoversError::DownloadErrors(v) if v.len() == 1 && v[0].cid == "/ipfs/x"));
}

#[test]
fn failed_stat_stops_the_batch() {
    let ok: Result<u64, ipfs_api::Error> = Ok(42);
    assert_eq!(bcid::download::stat_outcome("/ipfs/a", ok).unwrap(), 42);
    let err: Result<u64, ipfs_api::Error> =
        Err(ipfs_api::Error::Api(ipfs_api::ApiError { message: "no such file".to_string(), code: 0 }));
    match bcid::download::stat_outcome("/ipfs/a", err) {
        Err(DownloadCoversError::DownloadErrors(errors)) => {
            assert_eq!(errors.len(), 1);
            assert_eq!(errors[0].cid, "/ipfs/a");
            assert!(matches!(errors[0].error, DownloadErrorInner::IpfsError(_)));
        }
        _ => panic!("expected the stat failure"),
    }
}

#[test]
fn rerun_of_a_batch_fetches_nothing() {
    for total in [0u64, 1, 500] {
        assert_eq!(plan_resume(Some(total), total), ResumePlan::AlreadyComplete);
    }
}
