use bcid::json::{object_get, JsonValue};
use bcid::metadata::high_res_cover;
use bcid::DownloadCoversError;

fn s(v: &str) -> JsonValue {
    JsonValue::String(v.to_string())
}

fn obj(entries: Vec<(&str, JsonValue)>) -> JsonValue {
    JsonValue::Object(entries.into_iter().map(|(k, v)| (k.to_string(), v)).collect())
}

fn file(name: &str, media_type: &str, src: &str) -> JsonValue {
    obj(vec![("name", s(name)), ("mediaType", s(media_type)), ("src", s(src))])
}

fn metadata(files: JsonValue) -> Option<Vec<(String, JsonValue)>> {
    Some(vec![("name".to_string(), s("Book")), ("files".to_string(), files)])
}

#[test]
fn object_get_finds_the_first_entry() {
    let entries = vec![
        ("a".to_string(), s("1")),
        ("b".to_string(), s("2")),
        ("a".to_string(), s("3")),
    ];
    assert!(matches!(object_get(&entries, "a"), Some(JsonValue::String(v)) if v == "1"));
    assert!(matches!(object_get(&entries, "b"), Some(JsonValue::String(v)) if v == "2"));
    assert!(object_get(&entries, "c").is_none());
}

#[test]
fn high_res_cover_is_found() {
    let files = JsonValue::Array(vec![
        file("Low-Res Cover Image", "image/jpeg", "ipfs://low"),
        file("High-Res Cover Image", "image/png", "ipfs://high"),
        JsonValue::Null,
    ]);
    let cover = high_res_cover("asset1".to_string(), &metadata(files)).unwrap();
    assert_eq!(cover.src, "ipfs://high");
    assert_eq!(cover.media_type, "image/png");
}

#[test]
fn metadata_missing() {
    let r = high_res_cover("asset1".to_string(), &None);
    assert!(matches!(r, Err(DownloadCoversError::MetadataMissing { asset_id }) if asset_id == "asset1"));
}

#[test]
fn metadata_files_missing() {
    let r = high_res_cover("asset1".to_string(), &Some(vec![("name".to_string(), s("x"))]));
    assert!(matches!(r, Err(DownloadCoversError::MetadataFilesMissing { asset_id }) if asset_id == "asset1"));
}

#[test]
fn metadata_files_not_an_array() {
    let r = high_res_cover("asset1".to_string(), &metadata(s("nope")));
    assert!(matches!(r, Err(DownloadCoversError::MetadataFileInvalid { asset_id, message })
        if asset_id == "asset1" && message == "the value for the `files` key must be an Array"));
}

#[test]
fn metadata_files_empty() {
    let r = high_res_cover("asset1".to_string(), &metadata(JsonValue::Array(vec![])));
    assert!(matches!(r, Err(DownloadCoversError::MetadataFilesEmpty { asset_id }) if asset_id == "asset1"));
}

#[test]
fn metadata_file_not_an_object() {
    let r = high_res_cover("a".to_string(), &metadata(JsonValue::Array(vec![JsonValue::Bool(true)])));
    assert!(matches!(r, Err(DownloadCoversError::MetadataFileInvalid { message, .. })
        if message == "each element of the `files` array must be an Object"));
}

#[test]
fn metadata_file_without_string_fields() {
    let no_name = obj(vec![("mediaType", s("image/png")), ("src", s("x"))]);
    let r = high_res_cover("a".to_string(), &metadata(JsonValue::Array(vec![no_name])));
    assert!(matches!(r, Err(DownloadCoversError::MetadataFileInvalid { message, .. })
        if message == "each file in the files array must have a String `name` key"));

    let number_type = obj(vec![("name", s("n")), ("mediaType", JsonValue::Number("1".to_string())), ("src", s("x"))]);
    let r = high_res_cover("a".to_string(), &metadata(JsonValue::Array(vec![number_type])));
    assert!(matches!(r, Err(DownloadCoversError::MetadataFileInvalid { message, .. })
        if message == "each file in the files array must have a String `mediaType` key"));

    let no_src = obj(vec![("name", s("n")), ("mediaType", s("image/png"))]);
    let r = high_res_cover("a".to_string(), &metadata(JsonValue::Array(vec![no_src])));
    assert!(matches!(r, Err(DownloadCoversError::MetadataFileInvalid { message, .. })
        if message == "each file in the files array must have a String `src` key"));
}

#[test]
fn metadata_without_high_res_image() {
    let files = JsonValue::Array(vec![file("Thumbnail", "image/png", "ipfs://t")]);
    let r = high_res_cover("asset9".to_string(), &metadata(files));
    assert!(matches!(r, Err(DownloadCoversError::MetadataFilesMissingHighResImage { asset_id }) if asset_id == "asset9"));
}

#[test]
fn malformed_entry_before_the_cover_is_reported() {
    let files = JsonValue::Array(vec![JsonValue::Null, file("High-Res Cover Image", "image/png", "ipfs://h")]);
    let r = high_res_cover("a".to_string(), &metadata(files));
    assert!(matches!(r, Err(DownloadCoversError::MetadataFileInvalid { .. })));
}
