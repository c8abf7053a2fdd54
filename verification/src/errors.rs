//! Error types of the library, and the outside errors that they carry.

use vstd::prelude::*;
use vstd::std_specs::convert::{FromSpecImpl, IntoSpec};

verus! {

/// Declares `ipfs_api::Error`, the error of IPFS requests, as a value the
/// library carries without looking inside.
#[verifier::external_type_specification]
#[verifier::external_body]
pub struct ExIpfsError(ipfs_api::Error);

/// Declares `std::io::Error`, carried without looking inside.
#[verifier::external_type_specification]
#[verifier::external_body]
pub struct ExIoError(std::io::Error);

/// Declares `reqwest::Error`, the error of the collections request, carried
/// without looking inside.
#[verifier::external_type_specification]
#[verifier::external_body]
pub struct ExReqwestError(reqwest::Error);

/// Declares `blockfrost::Error`, the error of BlockFrost requests, carried
/// without looking inside.
#[verifier::external_type_specification]
#[verifier::external_body]
pub struct ExBlockfrostError(blockfrost::Error);

/// Encapsulates errors that can be returned for a particular download.
#[derive(Debug)]
pub enum DownloadErrorInner {
    /// An error occurred communicating with or downloading from the IPFS network.
    IpfsError(ipfs_api::Error),
    /// An IO error occurred trying to write to the specified download destination path.
    IoError(std::io::Error),
    /// The resulting downloaded file is of the wrong size.
    CorruptDownload,
}

impl From<ipfs_api::Error> for DownloadErrorInner {
    fn from(value: ipfs_api::Error) -> (r: Self) {
        DownloadErrorInner::IpfsError(value)
    }
}

impl FromSpecImpl<ipfs_api::Error> for DownloadErrorInner {
    open spec fn obeys_from_spec() -> bool {
        true
    }

    open spec fn from_spec(v: ipfs_api::Error) -> Self {
        DownloadErrorInner::IpfsError(v)
    }
}

impl From<std::io::Error> for DownloadErrorInner {
    fn from(value: std::io::Error) -> (r: Self) {
        DownloadErrorInner::IoError(value)
    }
}

impl FromSpecImpl<std::io::Error> for DownloadErrorInner {
    open spec fn obeys_from_spec() -> bool {
        true
    }

    open spec fn from_spec(v: std::io::Error) -> Self {
        DownloadErrorInner::IoError(v)
    }
}

/// Annotates [`DownloadErrorInner`] with a `cid` field telling which download
/// the error refers to.
#[derive(Debug)]
pub struct DownloadError {
    /// The id of the cover for which this specific download failed.
    pub cid: String,
    /// The error that occurred while trying to download the cover.
    pub error: DownloadErrorInner,
}

impl DownloadError {
    /// Builds a [`DownloadError`] from a `cid` and something convertible into a
    /// [`DownloadErrorInner`].
    pub fn from<E: Into<DownloadErrorInner>>(cid: &str, error: E) -> (r: DownloadError)
        ensures
            r.cid@ == cid@,
            E::obeys_into_spec() ==> r.error == error.into_spec(),
    {
        DownloadError { cid: String::from_str(cid), error: error.into() }
    }
}

/// Errors that can occur while updating the list of valid collection ids.
#[derive(Debug)]
pub enum UpdateCollectionIdsError {
    /// A network issue was encountered or the response returned by the server
    /// indicates an error state or otherwise does not conform to the expected schema.
    Request(reqwest::Error),
}

impl From<reqwest::Error> for UpdateCollectionIdsError {
    fn from(value: reqwest::Error) -> (r: Self) {
        UpdateCollectionIdsError::Request(value)
    }
}

impl FromSpecImpl<reqwest::Error> for UpdateCollectionIdsError {
    open spec fn obeys_from_spec() -> bool {
        true
    }

    open spec fn from_spec(v: reqwest::Error) -> Self {
        UpdateCollectionIdsError::Request(v)
    }
}

/// All errors that can be encountered while covers for a policy are downloaded.
#[derive(Debug)]
pub enum DownloadCoversError {
    /// An error was encountered while attempting to update the list of valid collection ids.
    UpdateCollectionIds(UpdateCollectionIdsError),
    /// The provided `collection_id`/`policy_id` was not found in the list of valid ids.
    InvalidId,
    /// An error occurred trying to access the specified `collection_id`/`policy_id` or
    /// associated information via BlockFrost.
    BlockFrost(blockfrost::Error),
    /// The specified asset was found successfully on the blockchain, however it has no metadata.
    MetadataMissing {
        /// The ID of the asset
        asset_id: String,
    },
    /// The specified asset has metadata, but it is missing the required `files` key.
    MetadataFilesMissing {
        /// The ID of the asset
        asset_id: String,
    },
    /// The metadata for one or more of the entries in the asset's `files` array was invalid.
    MetadataFileInvalid {
        /// The ID of the asset
        asset_id: String,
        /// A helpful message describing the error state
        message: &'static str,
    },
    /// The asset's `files` array was empty.
    MetadataFilesEmpty {
        /// The ID of the asset
        asset_id: String,
    },
    /// One or more files in the asset's `files` array is missing a high-res image.
    MetadataFilesMissingHighResImage {
        /// The id of the asset
        asset_id: String,
    },
    /// The download process is complete however one or more errors was
    /// encountered during download.
    DownloadErrors(Vec<DownloadError>),
}

impl From<UpdateCollectionIdsError> for DownloadCoversError {
    fn from(value: UpdateCollectionIdsError) -> (r: Self) {
        DownloadCoversError::UpdateCollectionIds(value)
    }
}

impl FromSpecImpl<UpdateCollectionIdsError> for DownloadCoversError {
    open spec fn obeys_from_spec() -> bool {
        true
    }

    open spec fn from_spec(v: UpdateCollectionIdsError) -> Self {
        DownloadCoversError::UpdateCollectionIds(v)
    }
}

impl From<blockfrost::Error> for DownloadCoversError {
    fn from(value: blockfrost::Error) -> (r: Self) {
        DownloadCoversError::BlockFrost(value)
    }
}

impl FromSpecImpl<blockfrost::Error> for DownloadCoversError {
    open spec fn obeys_from_spec() -> bool {
        true
    }

    open spec fn from_spec(v: blockfrost::Error) -> Self {
        DownloadCoversError::BlockFrost(v)
    }
}

impl From<DownloadError> for DownloadCoversError {
    fn from(value: DownloadError) -> (r: Self)
        ensures
            r matches DownloadCoversError::DownloadErrors(errors) && errors@ == seq![value],
    {
        DownloadCoversError::DownloadErrors(vec![value])
    }
}

impl FromSpecImpl<DownloadError> for DownloadCoversError {
    open spec fn obeys_from_spec() -> bool {
        false
    }

    open spec fn from_spec(v: DownloadError) -> Self {
        arbitrary()
    }
}

/// Errors that can be returned when a [`Client`](crate::client::Client) is created.
#[derive(Debug, PartialEq, Eq, Structural)]
pub enum CreateClientError {
    /// A BlockFrost project ID has not been specified.
    MissingProjectId,
}

} // verus!
