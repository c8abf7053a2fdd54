use bcid::client::is_valid_project_id;
use bcid::{extension_for, src_to_cid, Client, Collection, CollectionResponse, CreateClientError, BOOK_API_URL};

#[test]
fn test_src_to_cid() {
    assert_eq!(src_to_cid(&String::from("ipfs://my-path")), "/ipfs/my-path");
    assert_eq!(
        src_to_cid("ipfs://some-longer-path"),
        "/ipfs/some-longer-path"
    );
    assert_eq!(src_to_cid("hello/world"), "/ipfs/hello/world");
    assert_eq!(src_to_cid("/ipfs/test"), "/ipfs/test");
}

#[test]
fn test_extension_for() {
    assert_eq!(extension_for("image/png"), "png");
    assert_eq!(extension_for("image/PNG"), "png");
    assert_eq!(extension_for("image/jpeg"), "jpg");
    assert_eq!(extension_for("image/vnd.microsoft.bitmap"), "bmp");
    assert_eq!(extension_for("image/bmp"), "bmp");
    assert_eq!(extension_for("image/vnd.adobe.photoshop"), "psd");
}

#[test]
fn test_invalid_project_id_does_not_panic() {
    Client::with_project_id("abcd");
}

#[test]
fn src_to_cid_is_idempotent() {
    for src in ["ipfs://abc", "/ipfs/abc", "abc", "", "ipfs://", "/ipfs/", "ipfs:/x"] {
        let once = src_to_cid(src);
        assert_eq!(src_to_cid(&once), once);
        assert!(once.starts_with("/ipfs/"));
    }
    assert_eq!(src_to_cid("ipfs://"), "/ipfs/");
    assert_eq!(src_to_cid(""), "/ipfs/");
    assert_eq!(src_to_cid("ipfs:/x"), "/ipfs/ipfs:/x");
}

#[test]
fn extension_for_every_format() {
    let cases = [
        ("image/jpeg", "jpg"), ("image/jpg", "jpg"), ("image/png", "png"),
        ("image/gif", "gif"), ("image/vnd.compuserve.gif", "gif"), ("image/webp", "webp"),
        ("image/x-canon-cr2", "cr2"), ("image/cr2", "cr2"), ("image/tiff", "tif"),
        ("image/tif", "tif"), ("image/bmp", "bmp"), ("image/vnd.microsoft.bitmap", "bmp"),
        ("image/heif", "heif"), ("image/avif", "avif"), ("image/vnd.ms-photo", "jxr"),
        ("image/jxr", "jxr"), ("image/vnd.adobe.photoshop", "psd"), ("image/psd", "psd"),
        ("image/vnd.microsoft.icon", "ico"), ("image/ico", "ico"), ("image/openraster", "ora"),
        ("image/ora", "ora"),
    ];
    for (mime, ext) in cases {
        assert_eq!(extension_for(mime), ext);
        assert_eq!(bcid::extension_for_lowercase(mime), ext);
    }
}

#[test]
fn extension_for_ignores_case_and_defaults_to_png() {
    assert_eq!(extension_for("IMAGE/JPEG"), "jpg");
    assert_eq!(extension_for("Image/Gif"), "gif");
    assert_eq!(bcid::extension_for_lowercase("IMAGE/JPEG"), "png");
    assert_eq!(extension_for("text/plain"), "png");
    assert_eq!(extension_for(""), "png");
    assert_eq!(extension_for("image/jpeg "), "png");
}

#[test]
fn project_id_must_be_a_header_value() {
    assert!(is_valid_project_id("mainnetAbc123"));
    assert!(is_valid_project_id("with space\tand tab"));
    assert!(is_valid_project_id("ünïcode"));
    assert!(is_valid_project_id(""));
    assert!(!is_valid_project_id("line\nbreak"));
    assert!(!is_valid_project_id("del\u{7f}"));
    assert!(!is_valid_project_id("nul\u{0}"));
}

#[test]
fn missing_project_id_is_reported() {
    assert_eq!(
        Client::from_project_id_var(None).err(),
        Some(CreateClientError::MissingProjectId)
    );
    let client = Client::from_project_id_var(Some("abcd")).unwrap();
    assert_eq!(client.book_api_url, BOOK_API_URL);
    assert!(client.has_no_collection_ids());
}

#[test]
fn new_client_has_defaults() {
    let client = Client::with_project_id("abcd");
    assert_eq!(client.book_api_url(), "https://api.book.io/api/v0/collections");
    assert!(!client.quiet);
    assert!(!client.slow);
    assert!(!client.simulate_early_kill);
    assert!(client.has_no_collection_ids());
    assert!(!client.is_valid_collection_id("abc"));
}

fn collection(id: &str, chain: &str) -> Collection {
    Collection {
        collection_id: id.to_string(),
        description: "d".to_string(),
        blockchain: chain.to_string(),
        network: "mainnet".to_string(),
    }
}

#[test]
fn update_keeps_only_cardano_ids_and_replaces_the_set() {
    let mut client = Client::with_project_id("abcd");
    let response = CollectionResponse {
        response_type: "success".to_string(),
        data: vec![
            collection("a", "cardano"),
            collection("b", "ethereum"),
            collection("a", "cardano"),
            collection("c", "cardano"),
            collection("d", "Cardano"),
        ],
    };
    client.update_collection_ids(&response);
    assert!(!client.has_no_collection_ids());
    assert!(client.is_valid_collection_id("a"));
    assert!(client.is_valid_collection_id("c"));
    assert!(!client.is_valid_collection_id("b"));
    assert!(!client.is_valid_collection_id("d"));

    let second = CollectionResponse {
        response_type: "error".to_string(),
        data: vec![collection("e", "cardano")],
    };
    client.update_collection_ids(&second);
    assert!(client.is_valid_collection_id("e"));
    assert!(!client.is_valid_collection_id("a"));

    let empty = CollectionResponse { response_type: "success".to_string(), data: vec![] };
    client.update_collection_ids(&empty);
    assert!(client.has_no_collection_ids());
}

#[test]
fn client_setters_change_one_setting() {
    let mut client = Client::with_project_id("abcd");
    client.set_book_api_url("http://localhost/x".to_string());
    client.set_quiet(true);
    client.set_slow(true);
    client.set_simulate_early_kill(true);
    assert_eq!(client.book_api_url(), "http://localhost/x");
    assert!(client.quiet && client.slow && client.simulate_early_kill);
}

#[test]
fn cloned_client_keeps_its_state() {
    let mut client = Client::with_project_id("abcd");
    client.set_quiet(true);
    client.update_collection_ids(&CollectionResponse {
        response_type: "success".to_string(),
        data: vec![collection("x", "cardano")],
    });
    let copy = client.clone();
    assert!(copy.quiet);
    assert!(copy.is_valid_collection_id("x"));
    assert_eq!(copy.book_api_url(), BOOK_API_URL);
}
