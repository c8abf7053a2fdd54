//! The command line interface: its options, the client they configure, and
//! the messages that report how a run went.

use vstd::prelude::*;
use vstd::string::to_string_from_display_ensures;
use crate::client::{default_blockfrost_settings, is_header_text, Client, ClientView, BOOK_API_URL};
use crate::decimal::{decimal, decimal_text};
use crate::errors::{DownloadCoversError, DownloadError, DownloadErrorInner, UpdateCollectionIdsError};

verus! {

/// Declares `std::path::PathBuf`, carried without looking inside.
#[verifier::external_type_specification]
#[verifier::external_body]
pub struct ExPathBuf(std::path::PathBuf);

/// The options of the `bcid` command.
pub struct Cli {
    /// The Cardano `policy_id`/`collection_id` to download cover images for.
    pub policy_id: String,
    /// The directory to download cover images to; the current directory if
    /// not specified.
    pub output_dir: Option<std::path::PathBuf>,
    /// The BlockFrost API `project_id` used to query Cardano.
    pub project_id: String,
    /// The number of cover images to download; 10 if not specified.
    pub num_covers: Option<usize>,
    /// Overrides the default book.io valid collections API URL.
    pub api_url: Option<String>,
    /// Suppresses all progress bar terminal output.
    pub quiet: bool,
    /// Simulates a slow network connection.
    pub slow: bool,
    /// Kills each download at a random percent completion.
    pub simulate_kill: bool,
}

/// `line` is `prefix`, the text that `value` displays (what `to_string`
/// gives for it), then `suffix`.
pub open spec fn wraps<T: core::fmt::Display>(line: Seq<char>, prefix: Seq<char>, value: &T, suffix: Seq<char>) -> bool {
    exists|text: String| to_string_from_display_ensures::<T>(value, text) && line == prefix + text@ + suffix
}

/// The message of a successful run.
pub open spec fn spec_success_message(downloaded: nat, num_covers: nat, policy_id: Seq<char>, path: Seq<char>) -> Seq<char> {
    "Successfully downloaded "@ + decimal(downloaded) + "/"@ + decimal(num_covers)
        + " covers for policy_id `"@ + policy_id + "` to `"@ + path + "`"@
}

/// The line that reports one failed download.
pub open spec fn describes_download_error(e: DownloadError, path: Seq<char>, line: Seq<char>) -> bool {
    match e.error {
        DownloadErrorInner::IpfsError(err) => wraps(line,
            "An error occurred communicating with or downloading from the IPFS network for cid `"@ + e.cid@ + "`: \""@,
            &err, "\"."@),
        DownloadErrorInner::IoError(err) => wraps(line,
            "An IO error occurred trying to write data associated with cid `"@ + e.cid@ + "` to `"@ + path + "`: \""@,
            &err, "\"."@),
        DownloadErrorInner::CorruptDownload => line ==
            "The file that was downloaded for cid `"@ + e.cid@ + "` has failed the integrity test and is of the wrong size."@,
    }
}

/// The lines that report a failed run: none when quiet, otherwise one line
/// per error, after a heading when downloads failed.
pub open spec fn describes_failure(
    quiet: bool,
    err: DownloadCoversError,
    policy_id: Seq<char>,
    endpoint: Seq<char>,
    path: Seq<char>,
    lines: Seq<String>,
) -> bool {
    if quiet {
        lines.len() == 0
    } else {
        match err {
            DownloadCoversError::UpdateCollectionIds(UpdateCollectionIdsError::Request(e)) => lines.len() == 1 && wraps(lines[0]@,
                "An error occurred communicating with or processing the response from the valid collections endpoint `"@ + endpoint + "`: \""@,
                &e, "\"."@),
            DownloadCoversError::InvalidId => lines.len() == 1 && lines[0]@ ==
                "The collection_id/policy_id `"@ + policy_id + "` was not found in the list of valid ids from "@ + endpoint + "."@,
            DownloadCoversError::BlockFrost(e) => lines.len() == 1 && wraps(lines[0]@,
                "An error occurred trying to access the collection_id/policy_id `"@ + policy_id + "` or associated information via BlockFrost: \""@,
                &e, "\"."@),
            DownloadCoversError::MetadataMissing { asset_id } => lines.len() == 1 && lines[0]@ ==
                "The Cardano asset with id `"@ + asset_id@ + "` was found successfully, however it has no metadata."@,
            DownloadCoversError::MetadataFilesMissing { asset_id } => lines.len() == 1 && lines[0]@ ==
                "The Cardano asset with id `"@ + asset_id@ + "` was found successfully, and it has metadata, but it is missing the required files key in that metadata."@,
            DownloadCoversError::MetadataFileInvalid { asset_id, message } => lines.len() == 1 && lines[0]@ ==
                "The Cardano asset with id `"@ + asset_id@ + "` was found successfully, and it has metadata, but the metadata for one or more of the entries in its files array was invalid: \""@ + message@ + "\"."@,
            DownloadCoversError::MetadataFilesEmpty { asset_id } => lines.len() == 1 && lines[0]@ ==
                "The Cardano asset with id `"@ + asset_id@ + "` was found successfully, and it has metadata, but the `files` array was empty."@,
            DownloadCoversError::MetadataFilesMissingHighResImage { asset_id } => lines.len() == 1 && lines[0]@ ==
                "The Cardano asset with id `"@ + asset_id@ + "` was found successfully, and it has the required `files` array, but one or more entries in the array was missing a high-resolution image asset."@,
            DownloadCoversError::DownloadErrors(errs) => {
                &&& lines.len() == errs@.len() + 1
                &&& lines[0]@ == "One or more downloads encountered errors:"@
                &&& forall|i: int| 0 <= i < errs@.len() ==> describes_download_error(#[trigger] errs@[i], path, lines[i + 1]@)
            },
        }
    }
}

/// `prefix`, `middle` and `suffix` joined.
fn join3(prefix: &str, middle: &str, suffix: &str) -> (s: String)
    ensures
        s@ == prefix@ + middle@ + suffix@,
{
    let mut s = String::from_str(prefix);
    s.append(middle);
    s.append(suffix);
    s
}

/// `prefix`, the text that `value` displays, then `suffix`.
fn wrap_text<T: core::fmt::Display>(prefix: String, value: &T, suffix: &str) -> (s: String)
    ensures
        wraps(s@, prefix@, value, suffix@),
{
    let text = value.to_string();
    let mut s = prefix;
    s.append(text.as_str());
    s.append(suffix);
    assert(s@ == prefix@ + text@ + suffix@);
    s
}

fn download_error_line(e: &DownloadError, path: &str) -> (line: String)
    ensures
        describes_download_error(*e, path@, line@),
{
    match &e.error {
        DownloadErrorInner::IpfsError(err) => wrap_text(
            join3("An error occurred communicating with or downloading from the IPFS network for cid `", e.cid.as_str(), "`: \""),
            err,
            "\".",
        ),
        DownloadErrorInner::IoError(err) => {
            let mut prefix = join3("An IO error occurred trying to write data associated with cid `", e.cid.as_str(), "` to `");
            prefix.append(path);
            prefix.append("`: \"");
            wrap_text(prefix, err, "\".")
        },
        DownloadErrorInner::CorruptDownload => join3(
            "The file that was downloaded for cid `",
            e.cid.as_str(),
            "` has failed the integrity test and is of the wrong size.",
        ),
    }
}

impl Cli {
    /// The number of covers to download: 10 unless specified.
    pub fn requested_covers(&self) -> (n: usize)
        ensures
            n == match self.num_covers {
                Some(n) => n,
                None => 10,
            },
    {
        match self.num_covers {
            Some(n) => n,
            None => 10,
        }
    }

    /// The client that the options describe.
    pub fn client(&self) -> (client: Client)
        requires
            is_header_text(self.project_id@),
        ensures
            client@ == (ClientView {
                valid_ids: Set::<Seq<char>>::empty(),
                book_api_url: match self.api_url {
                    Some(url) => url@,
                    None => BOOK_API_URL@,
                },
                quiet: self.quiet,
                slow: self.slow,
                simulate_early_kill: self.simulate_kill,
                project_id: self.project_id@,
                blockfrost_settings: default_blockfrost_settings(),
            }),
    {
        let mut client = Client::with_project_id(self.project_id.as_str());
        if let Some(url) = &self.api_url {
            client.set_book_api_url(url.clone());
        }
        client.set_quiet(self.quiet);
        client.set_simulate_early_kill(self.simulate_kill);
        client.set_slow(self.slow);
        client
    }

    /// The message of a run that downloaded `downloaded` of the requested
    /// `num_covers` covers to `path`.
    pub fn success_message(&self, downloaded: usize, num_covers: usize, path: &str) -> (message: String)
        ensures
            message@ == spec_success_message(downloaded as nat, num_covers as nat, self.policy_id@, path@),
    {
        let mut m = String::from_str("Successfully downloaded ");
        m.append(decimal_text(downloaded).as_str());
        m.append("/");
        m.append(decimal_text(num_covers).as_str());
        m.append(" covers for policy_id `");
        m.append(self.policy_id.as_str());
        m.append("` to `");
        m.append(path);
        m.append("`");
        m
    }

    /// The lines that report a failed run against the collections endpoint
    /// `endpoint`, with covers going to `path`; none when quiet.
    pub fn failure_messages(&self, err: &DownloadCoversError, endpoint: &str, path: &str) -> (lines: Vec<String>)
        ensures
            describes_failure(self.quiet, *err, self.policy_id@, endpoint@, path@, lines@),
    {
        let mut lines: Vec<String> = Vec::new();
        if self.quiet {
            return lines;
        }
        let policy_id = self.policy_id.as_str();
        match err {
            DownloadCoversError::UpdateCollectionIds(UpdateCollectionIdsError::Request(e)) => {
                lines.push(wrap_text(
                    join3("An error occurred communicating with or processing the response from the valid collections endpoint `", endpoint, "`: \""),
                    e,
                    "\".",
                ));
            },
            DownloadCoversError::InvalidId => {
                let mut line = join3("The collection_id/policy_id `", policy_id, "` was not found in the list of valid ids from ");
                line.append(endpoint);
                line.append(".");
                lines.push(line);
            },
            DownloadCoversError::BlockFrost(e) => {
                lines.push(wrap_text(
                    join3("An error occurred trying to access the collection_id/policy_id `", policy_id, "` or associated information via BlockFrost: \""),
                    e,
                    "\".",
                ));
            },
            DownloadCoversError::MetadataMissing { asset_id } => {
                lines.push(join3("The Cardano asset with id `", asset_id.as_str(), "` was found successfully, however it has no metadata."));
            },
            DownloadCoversError::MetadataFilesMissing { asset_id } => {
                lines.push(join3("The Cardano asset with id `", asset_id.as_str(), "` was found successfully, and it has metadata, but it is missing the required files key in that metadata."));
            },
            DownloadCoversError::MetadataFileInvalid { asset_id, message } => {
                let mut line = join3("The Cardano asset with id `", asset_id.as_str(), "` was found successfully, and it has metadata, but the metadata for one or more of the entries in its files array was invalid: \"");
                line.append(message);
                line.append("\".");
                lines.push(line);
            },
            DownloadCoversError::MetadataFilesEmpty { asset_id } => {
                lines.push(join3("The Cardano asset with id `", asset_id.as_str(), "` was found successfully, and it has metadata, but the `files` array was empty."));
            },
            DownloadCoversError::MetadataFilesMissingHighResImage { asset_id } => {
                lines.push(join3("The Cardano asset with id `", asset_id.as_str(), "` was found successfully, and it has the required `files` array, but one or more entries in the array was missing a high-resolution image asset."));
            },
            DownloadCoversError::DownloadErrors(errs) => {
                lines.push(String::from_str("One or more downloads encountered errors:"));
                let mut i: usize = 0;
                while i < errs.len()
                    invariant
                        i <= errs@.len(),
                        lines@.len() == i + 1,
                        lines@[0]@ == "One or more downloads encountered errors:"@,
                        forall|j: int| 0 <= j < i ==> describes_download_error(#[trigger] errs@[j], path@, lines@[j + 1]@),
                    decreases errs@.len() - i,
                {
                    lines.push(download_error_line(&errs[i], path));
                    i = i + 1;
                }
            },
        }
        lines
    }
}

} // verus!
