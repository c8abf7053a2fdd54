//! Verified core of the Book.io cover image downloader: the decisions that
//! pick, name, resume and report cover downloads, separated from the network
//! and file-system work that drives them.

pub mod text;
pub mod cid;
pub mod media;

pub use cid::src_to_cid;
pub use media::{extension_for, extension_for_lowercase};
pub mod errors;
pub use errors::{
    CreateClientError, DownloadCoversError, DownloadError, DownloadErrorInner,
    UpdateCollectionIdsError,
};
pub mod json;
pub mod metadata;
pub mod collections;
pub use collections::{Collection, CollectionResponse};
pub mod client;
pub use client::{Client, ClientView, BOOK_API_URL};
pub mod download;
pub mod covers;
pub mod decimal;
pub mod cli;
pub use cli::Cli;
