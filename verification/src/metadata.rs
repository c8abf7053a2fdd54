//! Finding the high-resolution cover image among an asset's on-chain metadata.

use vstd::prelude::*;
use crate::errors::DownloadCoversError;
use crate::json::{object_get, spec_object_get, JsonValue};
use crate::text::same_text;

verus! {

/// The name that marks the high-resolution cover among an asset's files.
pub open spec fn high_res_name() -> Seq<char> {
    "High-Res Cover Image"@
}

/// Message for a `files` value that is not an array.
pub open spec fn files_not_array_msg() -> Seq<char> {
    "the value for the `files` key must be an Array"@
}

/// Message for an element of `files` that is not an object.
pub open spec fn file_not_object_msg() -> Seq<char> {
    "each element of the `files` array must be an Object"@
}

/// Message for a file without a string `name`.
pub open spec fn file_name_msg() -> Seq<char> {
    "each file in the files array must have a String `name` key"@
}

/// Message for a file without a string `mediaType`.
pub open spec fn file_media_type_msg() -> Seq<char> {
    "each file in the files array must have a String `mediaType` key"@
}

/// Message for a file without a string `src`.
pub open spec fn file_src_msg() -> Seq<char> {
    "each file in the files array must have a String `src` key"@
}

/// Where the search for the high-resolution cover stopped short.
pub enum MetadataFault {
    /// The asset has no metadata.
    Missing,
    /// The metadata has no `files` key.
    FilesMissing,
    /// The metadata is malformed, as the message says.
    FileInvalid(Seq<char>),
    /// The `files` array is empty.
    FilesEmpty,
    /// No file is named as the high-resolution cover.
    HighResMissing,
}

/// The `(name, mediaType, src)` strings of one entry of `files`, or the
/// message for the first of them that is not there.
pub open spec fn spec_file_fields(file: JsonValue) -> Result<(Seq<char>, Seq<char>, Seq<char>), Seq<char>> {
    match file {
        JsonValue::Object(entries) => match spec_object_get(entries@, "name"@) {
            Some(JsonValue::String(name)) => match spec_object_get(entries@, "mediaType"@) {
                Some(JsonValue::String(media_type)) => match spec_object_get(entries@, "src"@) {
                    Some(JsonValue::String(src)) => Ok((name@, media_type@, src@)),
                    _ => Err(file_src_msg()),
                },
                _ => Err(file_media_type_msg()),
            },
            _ => Err(file_name_msg()),
        },
        _ => Err(file_not_object_msg()),
    }
}

/// Walks the `files` array in order: the first malformed entry is reported,
/// the first entry named as the high-resolution cover gives `(src, mediaType)`.
pub open spec fn spec_scan_files(files: Seq<JsonValue>) -> Result<(Seq<char>, Seq<char>), MetadataFault>
    decreases files.len(),
{
    if files.len() == 0 {
        Err(MetadataFault::HighResMissing)
    } else {
        match spec_file_fields(files[0]) {
            Err(msg) => Err(MetadataFault::FileInvalid(msg)),
            Ok((name, media_type, src)) => if name == high_res_name() {
                Ok((src, media_type))
            } else {
                spec_scan_files(files.drop_first())
            },
        }
    }
}

/// The `(src, mediaType)` of the high-resolution cover described by an
/// asset's metadata, or the fault that prevents finding it.
pub open spec fn spec_high_res_cover(metadata: Option<Vec<(String, JsonValue)>>) -> Result<(Seq<char>, Seq<char>), MetadataFault> {
    match metadata {
        None => Err(MetadataFault::Missing),
        Some(entries) => match spec_object_get(entries@, "files"@) {
            None => Err(MetadataFault::FilesMissing),
            Some(JsonValue::Array(files)) => if files@.len() == 0 {
                Err(MetadataFault::FilesEmpty)
            } else {
                spec_scan_files(files@)
            },
            Some(_) => Err(MetadataFault::FileInvalid(files_not_array_msg())),
        },
    }
}

/// The string stored under `key` in a JSON object, if `file` is an object
/// and that value is a string.
pub open spec fn file_string(file: JsonValue, key: Seq<char>) -> Option<Seq<char>> {
    match file {
        JsonValue::Object(entries) => match spec_object_get(entries@, key) {
            Some(JsonValue::String(s)) => Some(s@),
            _ => None,
        },
        _ => None,
    }
}

/// An entry of `files` with a string `name`, `mediaType` and `src`.
pub open spec fn is_listed_file(file: JsonValue) -> bool {
    &&& file_string(file, "name"@) is Some
    &&& file_string(file, "mediaType"@) is Some
    &&& file_string(file, "src"@) is Some
}

/// A well-formed entry of `files` that is the high-resolution cover.
pub open spec fn is_high_res_file(file: JsonValue) -> bool {
    is_listed_file(file) && file_string(file, "name"@) == Some("High-Res Cover Image"@)
}

/// A well-formed entry of `files` that is some other file.
pub open spec fn is_other_file(file: JsonValue) -> bool {
    is_listed_file(file) && file_string(file, "name"@) != Some("High-Res Cover Image"@)
}

proof fn lemma_file_fields_are_strings(file: JsonValue)
    ensures
        spec_file_fields(file) is Ok <==> is_listed_file(file),
        spec_file_fields(file) matches Ok((n, m, s)) ==> {
            &&& file_string(file, "name"@) == Some(n)
            &&& file_string(file, "mediaType"@) == Some(m)
            &&& file_string(file, "src"@) == Some(s)
        },
{
}

proof fn lemma_scan_finds_first_high_res(files: Seq<JsonValue>)
    ensures
        forall|i: int| 0 <= i < files.len() && (forall|j: int| 0 <= j < i ==> is_other_file(#[trigger] files[j])) ==> {
            &&& (is_high_res_file(#[trigger] files[i]) ==> spec_scan_files(files)
                == Ok::<(Seq<char>, Seq<char>), MetadataFault>((file_string(files[i], "src"@)->0, file_string(files[i], "mediaType"@)->0)))
            &&& (!is_listed_file(files[i]) ==> spec_scan_files(files) matches Err(MetadataFault::FileInvalid(_)))
        },
        (forall|i: int| 0 <= i < files.len() ==> is_other_file(#[trigger] files[i]))
            ==> spec_scan_files(files) == Err::<(Seq<char>, Seq<char>), MetadataFault>(MetadataFault::HighResMissing),
    decreases files.len(),
{
    if files.len() > 0 {
        let rest = files.drop_first();
        lemma_scan_finds_first_high_res(rest);
        lemma_file_fields_are_strings(files[0]);
        assert forall|i: int| 0 <= i < files.len() && (forall|j: int| 0 <= j < i ==> is_other_file(#[trigger] files[j])) implies {
            &&& (is_high_res_file(#[trigger] files[i]) ==> spec_scan_files(files)
                == Ok::<(Seq<char>, Seq<char>), MetadataFault>((file_string(files[i], "src"@)->0, file_string(files[i], "mediaType"@)->0)))
            &&& (!is_listed_file(files[i]) ==> spec_scan_files(files) matches Err(MetadataFault::FileInvalid(_)))
        } by {
            if i > 0 {
                assert(is_other_file(files[0]));
                assert(rest[i - 1] == files[i]);
                assert forall|j: int| 0 <= j < i - 1 implies is_other_file(#[trigger] rest[j]) by {
                    assert(rest[j] == files[j + 1]);
                }
            }
        }
        if forall|i: int| 0 <= i < files.len() ==> is_other_file(#[trigger] files[i]) {
            assert(is_other_file(files[0]));
            assert forall|i: int| 0 <= i < rest.len() implies is_other_file(#[trigger] rest[i]) by {
                assert(rest[i] == files[i + 1]);
            }
        }
    }
}

/// Where the high-resolution cover is found: an asset without metadata, or
/// whose metadata has no `files`, a `files` that is not an array or an empty
/// one, each gives its own fault; otherwise the entries of `files` are read
/// in order, and the first one that is not a well-formed other file decides:
/// the first well-formed entry named `High-Res Cover Image` gives its `src`
/// and `mediaType`, a malformed entry before it makes the metadata invalid,
/// and with only other files the high-resolution cover is missing.
pub proof fn lemma_high_res_cover_is_first_named(metadata: Option<Vec<(String, JsonValue)>>)
    ensures
        metadata is None ==> spec_high_res_cover(metadata)
            == Err::<(Seq<char>, Seq<char>), MetadataFault>(MetadataFault::Missing),
        metadata matches Some(entries) ==> match spec_object_get(entries@, "files"@) {
            None => spec_high_res_cover(metadata) == Err::<(Seq<char>, Seq<char>), MetadataFault>(MetadataFault::FilesMissing),
            Some(JsonValue::Array(files)) => {
                &&& files@.len() == 0 ==> spec_high_res_cover(metadata)
                    == Err::<(Seq<char>, Seq<char>), MetadataFault>(MetadataFault::FilesEmpty)
                &&& forall|i: int| 0 <= i < files@.len() && (forall|j: int| 0 <= j < i ==> is_other_file(#[trigger] files@[j])) ==> {
                    &&& (is_high_res_file(#[trigger] files@[i]) ==> spec_high_res_cover(metadata)
                        == Ok::<(Seq<char>, Seq<char>), MetadataFault>((file_string(files@[i], "src"@)->0, file_string(files@[i], "mediaType"@)->0)))
                    &&& (!is_listed_file(files@[i]) ==> spec_high_res_cover(metadata) matches Err(MetadataFault::FileInvalid(_)))
                }
                &&& files@.len() > 0 && (forall|i: int| 0 <= i < files@.len() ==> is_other_file(#[trigger] files@[i]))
                    ==> spec_high_res_cover(metadata) == Err::<(Seq<char>, Seq<char>), MetadataFault>(MetadataFault::HighResMissing)
            },
            Some(_) => spec_high_res_cover(metadata) == Err::<(Seq<char>, Seq<char>), MetadataFault>(
                MetadataFault::FileInvalid("the value for the `files` key must be an Array"@)),
        },
{
    if let Some(entries) = metadata {
        if let Some(JsonValue::Array(files)) = spec_object_get(entries@, "files"@) {
            lemma_scan_finds_first_high_res(files@);
        }
    }
}

/// `err` is the error that reports `fault` for the asset `asset_id`.
pub open spec fn reports_fault(err: DownloadCoversError, asset_id: Seq<char>, fault: MetadataFault) -> bool {
    match fault {
        MetadataFault::Missing => err matches DownloadCoversError::MetadataMissing { asset_id: a } && a@ == asset_id,
        MetadataFault::FilesMissing => err matches DownloadCoversError::MetadataFilesMissing { asset_id: a } && a@ == asset_id,
        MetadataFault::FileInvalid(msg) => err matches DownloadCoversError::MetadataFileInvalid { asset_id: a, message: m } && a@ == asset_id && m@ == msg,
        MetadataFault::FilesEmpty => err matches DownloadCoversError::MetadataFilesEmpty { asset_id: a } && a@ == asset_id,
        MetadataFault::HighResMissing => err matches DownloadCoversError::MetadataFilesMissingHighResImage { asset_id: a } && a@ == asset_id,
    }
}

/// Where the high-resolution cover of an asset is stored, and its media type.
#[derive(Debug)]
pub struct CoverSource {
    /// The IPFS source of the image.
    pub src: String,
    /// The media type of the image.
    pub media_type: String,
}

/// The string stored under `key` in an object, if that value is a string.
fn string_field<'a>(entries: &'a Vec<(String, JsonValue)>, key: &str) -> (s: Option<&'a String>)
    ensures
        match s {
            Some(s) => spec_object_get(entries@, key@) == Some(JsonValue::String(*s)),
            None => !(spec_object_get(entries@, key@) matches Some(JsonValue::String(_))),
        },
{
    match object_get(entries, key) {
        Some(JsonValue::String(s)) => Some(s),
        _ => None,
    }
}

/// Reads the `(name, mediaType, src)` strings of one entry of `files`.
fn file_fields(file: &JsonValue) -> (r: Result<(&String, &String, &String), &'static str>)
    ensures
        match (r, spec_file_fields(*file)) {
            (Ok((n, m, s)), Ok((sn, sm, ss))) => n@ == sn && m@ == sm && s@ == ss,
            (Err(msg), Err(smsg)) => msg@ == smsg,
            _ => false,
        },
{
    let entries = match file {
        JsonValue::Object(entries) => entries,
        _ => return Err("each element of the `files` array must be an Object"),
    };
    let name = match string_field(entries, "name") {
        Some(name) => name,
        None => return Err("each file in the files array must have a String `name` key"),
    };
    let media_type = match string_field(entries, "mediaType") {
        Some(media_type) => media_type,
        None => return Err("each file in the files array must have a String `mediaType` key"),
    };
    let src = match string_field(entries, "src") {
        Some(src) => src,
        None => return Err("each file in the files array must have a String `src` key"),
    };
    Ok((name, media_type, src))
}

/// Finds the `src` and media type of the high-resolution cover image in an
/// asset's on-chain metadata, checking each entry of its `files` array up to
/// the one named `High-Res Cover Image`.
pub fn high_res_cover(asset_id: String, metadata: &Option<Vec<(String, JsonValue)>>) -> (r: Result<CoverSource, DownloadCoversError>)
    ensures
        match (r, spec_high_res_cover(*metadata)) {
            (Ok(c), Ok((src, media_type))) => c.src@ == src && c.media_type@ == media_type,
            (Err(e), Err(fault)) => reports_fault(e, asset_id@, fault),
            _ => false,
        },
{
    let entries = match metadata {
        Some(entries) => entries,
        None => return Err(DownloadCoversError::MetadataMissing { asset_id }),
    };
    let files = match object_get(entries, "files") {
        None => return Err(DownloadCoversError::MetadataFilesMissing { asset_id }),
        Some(JsonValue::Array(files)) => files,
        Some(_) => return Err(DownloadCoversError::MetadataFileInvalid {
            asset_id,
            message: "the value for the `files` key must be an Array",
        }),
    };
    if files.len() == 0 {
        return Err(DownloadCoversError::MetadataFilesEmpty { asset_id });
    }
    let mut i: usize = 0;
    assert(files@.skip(0) =~= files@);
    while i < files.len()
        invariant
            i <= files@.len(),
            files@.len() > 0,
            spec_high_res_cover(*metadata) == spec_scan_files(files@.skip(i as int)),
        decreases files@.len() - i,
    {
        assert(files@.skip(i as int).drop_first() =~= files@.skip(i + 1));
        assert(files@.skip(i as int)[0] == files@[i as int]);
        match file_fields(&files[i]) {
            Err(message) => return Err(DownloadCoversError::MetadataFileInvalid { asset_id, message }),
            Ok((name, media_type, src)) => {
                if same_text(name.as_str(), "High-Res Cover Image") {
                    return Ok(CoverSource { src: src.clone(), media_type: media_type.clone() });
                }
            },
        }
        i = i + 1;
    }
    Err(DownloadCoversError::MetadataFilesMissingHighResImage { asset_id })
}

} // verus!
