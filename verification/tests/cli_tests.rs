use bcid::decimal::decimal_text;
use bcid::{Cli, DownloadCoversError, DownloadError, DownloadErrorInner, BOOK_API_URL};

fn cli(quiet: bool) -> Cli {
    Cli {
        policy_id: "pol".to_string(),
        output_dir: None,
        project_id: "abcd".to_string(),
        num_covers: None,
        api_url: None,
        quiet,
        slow: false,
        simulate_kill: false,
    }
}

#[test]
fn decimal_numbers() {
    assert_eq!(decimal_text(0), "0");
    assert_eq!(decimal_text(7), "7");
    assert_eq!(decimal_text(10), "10");
    assert_eq!(decimal_text(1234509), "1234509");
    assert_eq!(decimal_text(usize::MAX), usize::MAX.to_string());
}

#[test]
fn default_number_of_covers() {
    let mut c = cli(false);
    assert_eq!(c.requested_covers(), 10);
    c.num_covers = Some(3);
    assert_eq!(c.requested_covers(), 3);
}

#[test]
fn client_follows_the_options() {
    let mut c = cli(true);
    let client = c.client();
    assert_eq!(client.book_api_url, BOOK_API_URL);
    assert!(client.quiet && !client.slow && !client.simulate_early_kill);
    c.api_url = Some("http://x/y".to_string());
    c.slow = true;
    c.simulate_kill = true;
    c.quiet = false;
    let client = c.client();
    assert_eq!(client.book_api_url, "http://x/y");
    assert!(!client.quiet && client.slow && client.simulate_early_kill);
}

#[test]
fn success_message() {
    assert_eq!(
        cli(false).success_message(5, 10, "/tmp/out"),
        "Successfully downloaded 5/10 covers for policy_id `pol` to `/tmp/out`"
    );
}

#[test]
fn quiet_failure_prints_nothing() {
    assert!(cli(true).failure_messages(&DownloadCoversError::InvalidId, "E", "P").is_empty());
}

#[test]
fn failure_messages() {
    let c = cli(false);
    assert_eq!(
        c.failure_messages(&DownloadCoversError::InvalidId, "http://e", "/p"),
        vec!["The collection_id/policy_id `pol` was not found in the list of valid ids from http://e.".to_string()]
    );
    assert_eq!(
        c.failure_messages(&DownloadCoversError::MetadataMissing { asset_id: "a1".to_string() }, "e", "p"),
        vec!["The Cardano asset with id `a1` was found successfully, however it has no metadata.".to_string()]
    );
    assert_eq!(
        c.failure_messages(&DownloadCoversError::MetadataFilesMissing { asset_id: "a1".to_string() }, "e", "p"),
        vec!["The Cardano asset with id `a1` was found successfully, and it has metadata, but it is missing the required files key in that metadata.".to_string()]
    );
    assert_eq!(
        c.failure_messages(&DownloadCoversError::MetadataFileInvalid { asset_id: "a1".to_string(), message: "bad" }, "e", "p"),
        vec!["The Cardano asset with id `a1` was found successfully, and it has metadata, but the metadata for one or more of the entries in its files array was invalid: \"bad\".".to_string()]
    );
    assert_eq!(
        c.failure_messages(&DownloadCoversError::MetadataFilesEmpty { asset_id: "a1".to_string() }, "e", "p"),
        vec!["The Cardano asset with id `a1` was found successfully, and it has metadata, but the `files` array was empty.".to_string()]
    );
    assert_eq!(
        c.failure_messages(&DownloadCoversError::MetadataFilesMissingHighResImage { asset_id: "a1".to_string() }, "e", "p"),
        vec!["The Cardano asset with id `a1` was found successfully, and it has the required `files` array, but one or more entries in the array was missing a high-resolution image asset.".to_string()]
    );
    let bf = blockfrost::Error::Io(std::io::Error::new(std::io::ErrorKind::Other, "down"));
    let text = bf.to_string();
    assert_eq!(
        c.failure_messages(&DownloadCoversError::BlockFrost(bf), "e", "p"),
        vec![format!("An error occurred trying to access the collection_id/policy_id `pol` or associated information via BlockFrost: \"{text}\".")]
    );
}

#[test]
fn download_failure_messages() {
    let c = cli(false);
    let errs = vec![
        DownloadError { cid: "/ipfs/a".to_string(), error: DownloadErrorInner::CorruptDownload },
        DownloadError {
            cid: "/ipfs/b".to_string(),
            error: DownloadErrorInner::IoError(std::io::Error::new(std::io::ErrorKind::Other, "full")),
        },
    ];
    assert_eq!(
        c.failure_messages(&DownloadCoversError::DownloadErrors(errs), "e", "/out"),
        vec![
            "One or more downloads encountered errors:".to_string(),
            "The file that was downloaded for cid `/ipfs/a` has failed the integrity test and is of the wrong size.".to_string(),
            "An IO error occurred trying to write data associated with cid `/ipfs/b` to `/out`: \"full\".".to_string(),
        ]
    );
}

#[test]
fn ipfs_failure_message() {
    let c = cli(false);
    let err = ipfs_api::Error::Api(ipfs_api::ApiError { message: "gone".to_string(), code: 0 });
    let text = err.to_string();
    let errs = vec![DownloadError { cid: "/ipfs/q".to_string(), error: DownloadErrorInner::IpfsError(err) }];
    assert_eq!(
        c.failure_messages(&DownloadCoversError::DownloadErrors(errs), "e", "/out")[1],
        format!("An error occurred communicating with or downloading from the IPFS network for cid `/ipfs/q`: \"{text}\".")
    );
}
