use bcid::covers::{cover_file_name, AssetEntry, CoverAction, CoverEvent, CoverSession, CoverStage, CoverTarget};
use bcid::json::JsonValue;
use bcid::{Client, Collection, CollectionResponse, DownloadCoversError};

const POLICY: &str = "c40ca49ac9fe48b86d6fd998645b5c8ac89a4e21e2cfdb9fdca3e7ac";

fn client_with(ids: &[&str]) -> Client {
    let mut client = Client::with_project_id("abcd");
    let response = CollectionResponse {
        response_type: "success".to_string(),
        data: ids
            .iter()
            .map(|id| Collection {
                collection_id: id.to_string(),
                description: String::new(),
                blockchain: "cardano".to_string(),
                network: "mainnet".to_string(),
            })
            .collect(),
    };
    client.update_collection_ids(&response);
    client
}

fn entry(asset: &str, quantity: &str) -> AssetEntry {
    AssetEntry { asset: asset.to_string(), quantity: quantity.to_string() }
}

fn cover_metadata(media_type: &str, src: &str) -> Option<Vec<(String, JsonValue)>> {
    let file = JsonValue::Object(vec![
        ("name".to_string(), JsonValue::String("High-Res Cover Image".to_string())),
        ("mediaType".to_string(), JsonValue::String(media_type.to_string())),
        ("src".to_string(), JsonValue::String(src.to_string())),
    ]);
    Some(vec![("files".to_string(), JsonValue::Array(vec![file]))])
}

fn step(session: &mut CoverSession, client: &Client, event: CoverEvent) -> CoverAction {
    assert!(session.accepts(&event));
    session.step(client, event)
}

fn names(targets: &[CoverTarget]) -> Vec<(String, String)> {
    targets.iter().map(|t| (t.src.clone(), t.file_name.clone())).collect()
}

#[test]
fn download_of_two_covers() {
    let client = client_with(&[POLICY]);
    let mut session = CoverSession::new(POLICY, 2);
    assert_eq!(session.stage(), CoverStage::Ready);
    assert!(matches!(step(&mut session, &client, CoverEvent::Start), CoverAction::FetchAssetPage));
    let page = vec![entry("a0", "0"), entry("a1", "1"), entry("a2", "5"), entry("a3", "1")];
    match step(&mut session, &client, CoverEvent::AssetPage(Some(Ok(page)))) {
        CoverAction::FetchAssetDetails(id) => assert_eq!(id, "a1"),
        _ => panic!("expected asset details request"),
    }
    match step(&mut session, &client, CoverEvent::AssetDetails(Ok(cover_metadata("image/jpeg", "ipfs://one")))) {
        CoverAction::FetchAssetDetails(id) => assert_eq!(id, "a2"),
        _ => panic!("expected asset details request"),
    }
    let targets = match step(&mut session, &client, CoverEvent::AssetDetails(Ok(cover_metadata("IMAGE/PNG", "ipfs://two")))) {
        CoverAction::DownloadFiles(targets) => targets,
        _ => panic!("expected downloads"),
    };
    let expected = vec![
        ("ipfs://one".to_string(), "a1.jpg".to_string()),
        ("ipfs://two".to_string(), "a2.png".to_string()),
    ];
    assert_eq!(names(&targets), expected);
    match step(&mut session, &client, CoverEvent::FilesDownloaded(Ok(()))) {
        CoverAction::Finish(Ok(done)) => assert_eq!(names(&done), expected),
        _ => panic!("expected success"),
    }
    assert_eq!(session.stage(), CoverStage::Finished);
    assert!(!session.accepts(&CoverEvent::Start));
}

#[test]
fn assets_are_listed_until_enough_are_found() {
    let client = client_with(&[POLICY]);
    let mut session = CoverSession::new(POLICY, 3);
    step(&mut session, &client, CoverEvent::Start);
    let action = step(&mut session, &client, CoverEvent::AssetPage(Some(Ok(vec![entry("a", "1")]))));
    assert!(matches!(action, CoverAction::FetchAssetPage));
    let action = step(&mut session, &client, CoverEvent::AssetPage(Some(Ok(vec![]))));
    assert!(matches!(action, CoverAction::FetchAssetPage));
    let action = step(&mut session, &client, CoverEvent::AssetPage(None));
    assert!(matches!(action, CoverAction::FetchAssetDetails(id) if id == "a"));
}

#[test]
fn missing_collection_ids_are_fetched_first() {
    let empty = Client::with_project_id("abcd");
    let mut session = CoverSession::new(POLICY, 1);
    assert!(matches!(step(&mut session, &empty, CoverEvent::Start), CoverAction::UpdateCollectionIds));
    assert_eq!(session.stage(), CoverStage::AwaitingCollectionIds);
    let updated = client_with(&[POLICY]);
    assert!(matches!(step(&mut session, &updated, CoverEvent::CollectionIdsUpdated(Ok(()))), CoverAction::FetchAssetPage));
}

#[test]
fn test_unknown_policy_is_refused() {
    let client = client_with(&["other"]);
    let mut session = CoverSession::new("bad-id", 3);
    let action = step(&mut session, &client, CoverEvent::Start);
    assert!(matches!(action, CoverAction::Finish(Err(DownloadCoversError::InvalidId))));
    assert_eq!(session.stage(), CoverStage::Finished);
}

#[test]
fn zero_covers_downloads_nothing() {
    let client = client_with(&[POLICY]);
    let mut session = CoverSession::new(POLICY, 0);
    match step(&mut session, &client, CoverEvent::Start) {
        CoverAction::Finish(Ok(done)) => assert!(done.is_empty()),
        _ => panic!("expected a finish with no covers"),
    }
    assert_eq!(session.stage(), CoverStage::Finished);
}

#[test]
fn policy_without_assets_finishes_with_no_covers() {
    let client = client_with(&[POLICY]);
    let mut session = CoverSession::new(POLICY, 2);
    step(&mut session, &client, CoverEvent::Start);
    let action = step(&mut session, &client, CoverEvent::AssetPage(Some(Ok(vec![entry("a", "0")]))));
    assert!(matches!(action, CoverAction::FetchAssetPage));
    match step(&mut session, &client, CoverEvent::AssetPage(None)) {
        CoverAction::Finish(Ok(done)) => assert!(done.is_empty()),
        _ => panic!("expected a finish with no covers"),
    }
}

#[test]
fn repeated_download_with_cached_ids_asks_for_the_same_files() {
    let run = |client: &Client, first_update: bool| -> Vec<(String, String)> {
        let mut session = CoverSession::new(POLICY, 1);
        let action = step(&mut session, client, CoverEvent::Start);
        if first_update {
            assert!(matches!(action, CoverAction::UpdateCollectionIds));
            step(&mut session, &client_with(&[POLICY]), CoverEvent::CollectionIdsUpdated(Ok(())));
        } else {
            assert!(matches!(action, CoverAction::FetchAssetPage));
        }
        let cached = client_with(&[POLICY]);
        step(&mut session, &cached, CoverEvent::AssetPage(Some(Ok(vec![entry("a1", "1")]))));
        let targets = match step(&mut session, &cached, CoverEvent::AssetDetails(Ok(cover_metadata("image/gif", "ipfs://g")))) {
            CoverAction::DownloadFiles(targets) => names(&targets),
            _ => panic!("expected downloads"),
        };
        match step(&mut session, &cached, CoverEvent::FilesDownloaded(Ok(()))) {
            CoverAction::Finish(Ok(done)) => assert_eq!(names(&done), targets),
            _ => panic!("expected success"),
        }
        targets
    };
    let first = run(&Client::with_project_id("abcd"), true);
    let second = run(&client_with(&[POLICY]), false);
    assert_eq!(first, vec![("ipfs://g".to_string(), "a1.gif".to_string())]);
    assert_eq!(first, second);
}

#[test]
fn blockfrost_errors_finish_the_download() {
    let client = client_with(&[POLICY]);
    let mut session = CoverSession::new(POLICY, 1);
    step(&mut session, &client, CoverEvent::Start);
    let err = blockfrost::Error::Io(std::io::Error::new(std::io::ErrorKind::Other, "down"));
    let action = step(&mut session, &client, CoverEvent::AssetPage(Some(Err(err))));
    assert!(matches!(action, CoverAction::Finish(Err(DownloadCoversError::BlockFrost(_)))));
}

#[test]
fn metadata_faults_finish_the_download() {
    let client = client_with(&[POLICY]);
    let mut session = CoverSession::new(POLICY, 1);
    step(&mut session, &client, CoverEvent::Start);
    step(&mut session, &client, CoverEvent::AssetPage(Some(Ok(vec![entry("z", "1")]))));
    let action = step(&mut session, &client, CoverEvent::AssetDetails(Ok(None)));
    assert!(matches!(action, CoverAction::Finish(Err(DownloadCoversError::MetadataMissing { asset_id })) if asset_id == "z"));
}

#[test]
fn download_failures_are_passed_on() {
    let client = client_with(&[POLICY]);
    let mut session = CoverSession::new(POLICY, 1);
    step(&mut session, &client, CoverEvent::Start);
    step(&mut session, &client, CoverEvent::AssetPage(Some(Ok(vec![entry("a", "1")]))));
    let action = step(&mut session, &client, CoverEvent::AssetDetails(Ok(cover_metadata("image/png", "ipfs://p"))));
    assert!(matches!(action, CoverAction::DownloadFiles(_)));
    let action = step(&mut session, &client, CoverEvent::FilesDownloaded(Err(DownloadCoversError::InvalidId)));
    assert!(matches!(action, CoverAction::Finish(Err(DownloadCoversError::InvalidId))));
}

#[test]
fn cover_file_names() {
    assert_eq!(cover_file_name("abc", "image/webp"), "abc.webp");
    assert_eq!(cover_file_name("abc", "application/pdf"), "abc.png");
    assert_eq!(cover_file_name("", "image/GIF"), ".gif");
}
