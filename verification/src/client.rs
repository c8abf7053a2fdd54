//! The client: its BlockFrost connection, settings and the cached set of valid
//! collection ids.

use vstd::prelude::*;
use crate::collections::{cardano_collection_ids, cardano_ids, contains_text, set_is_empty, texts_of, CollectionResponse};
use std::collections::HashSet;
use crate::errors::CreateClientError;

verus! {

/// The default API url that is used to check whether a book
/// `policy_id`/`collection_id` is valid.
pub const BOOK_API_URL: &'static str = "https://api.book.io/api/v0/collections";

/// Declares `blockfrost::BlockFrostApi`, carried without looking inside.
#[verifier::external_type_specification]
#[verifier::external_body]
pub struct ExBlockFrostApi(blockfrost::BlockFrostApi);

/// A character that an HTTP header value accepts: a tab, or any character
/// from the space on except DEL (characters beyond ASCII are encoded as bytes
/// that a header value accepts).
pub open spec fn is_header_char(c: char) -> bool {
    c == '\t' || (c as u32 >= 32 && c as u32 != 127)
}

/// A project id that can be sent as the `project_id` header of BlockFrost
/// requests.
pub open spec fn is_header_text(id: Seq<char>) -> bool {
    forall|i: int| 0 <= i < id.len() ==> is_header_char(#[trigger] id[i])
}

/// Printable ASCII text can always be sent as a header value, and text with
/// a control character other than the tab, or with DEL, never can.
pub proof fn lemma_header_text(id: Seq<char>)
    ensures
        (forall|i: int| 0 <= i < id.len() ==> ' ' <= #[trigger] id[i] && id[i] <= '~') ==> is_header_text(id),
        (exists|i: int| 0 <= i < id.len() && ((#[trigger] id[i] as u32) < 32 && id[i] != '\t' || id[i] as u32 == 127))
            ==> !is_header_text(id),
{
}

/// Tells whether `project_id` can be sent as an HTTP header value, which
/// creating a BlockFrost client needs.
pub fn is_valid_project_id(project_id: &str) -> (valid: bool)
    ensures
        valid == is_header_text(project_id@),
{
    let n = project_id.unicode_len();
    let mut i: usize = 0;
    while i < n
        invariant
            n == project_id@.len(),
            i <= n,
            forall|j: int| 0 <= j < i ==> is_header_char(#[trigger] project_id@[j]),
        decreases n - i,
    {
        let c = project_id.get_char(i);
        if !(c == '\t' || (c as u32 >= 32 && c as u32 != 127)) {
            return false;
        }
        i = i + 1;
    }
    true
}

/// The settings that BlockFrost requests are made with.
pub struct BlockFrostSettingsView {
    /// The address of the BlockFrost API the requests go to.
    pub network_address: Seq<char>,
    /// No query parameter (count, page, order, from, to) is set.
    pub no_query_parameters: bool,
    /// How many times a rate-limited request is retried.
    pub retry_amount: nat,
    /// How long to wait between retries, in nanoseconds.
    pub retry_delay_nanos: nat,
}

/// The address of the BlockFrost API for the Cardano mainnet.
pub open spec fn cardano_mainnet_network() -> Seq<char> {
    "https://cardano-mainnet.blockfrost.io/api/v0"@
}

/// The default BlockFrost settings: the Cardano mainnet, no query
/// parameters, no retries.
pub open spec fn default_blockfrost_settings() -> BlockFrostSettingsView {
    BlockFrostSettingsView {
        network_address: cardano_mainnet_network(),
        no_query_parameters: true,
        retry_amount: 0,
        retry_delay_nanos: 0,
    }
}

/// A BlockFrost connection, with the project id that its requests are
/// authenticated with and the settings they are made with.
pub struct BlockFrostConnection {
    api: blockfrost::BlockFrostApi,
    project_id: Ghost<Seq<char>>,
    settings: Ghost<BlockFrostSettingsView>,
}

impl BlockFrostConnection {
    /// The project id sent as the `project_id` header of every request.
    pub closed spec fn project_id(&self) -> Seq<char> {
        self.project_id@
    }

    /// The settings that every request is made with.
    pub closed spec fn settings(&self) -> BlockFrostSettingsView {
        self.settings@
    }

    /// The BlockFrost API client.
    pub closed spec fn api(&self) -> blockfrost::BlockFrostApi {
        self.api
    }
}

/// Calls `<BlockFrostApi as Clone>::clone`, which the source derives: the
/// copy holds clones of the settings and of the HTTP client, whose default
/// headers carry the project id. The contract records the same project id
/// and settings with the copy.
#[verifier::external_body]
fn clone_connection(c: &BlockFrostConnection) -> (copy: BlockFrostConnection)
    ensures
        copy.project_id() == c.project_id(),
        copy.settings() == c.settings(),
{
    BlockFrostConnection { api: c.api.clone(), project_id: Ghost(c.project_id@), settings: Ghost(c.settings@) }
}

impl Clone for BlockFrostConnection {
    fn clone(&self) -> (c: Self)
        ensures
            c.project_id() == self.project_id(),
            c.settings() == self.settings(),
    {
        clone_connection(self)
    }
}

/// Calls `HashSet::clone`, which copies every string the set holds.
#[verifier::external_body]
fn clone_ids(set: &HashSet<String>) -> (copy: HashSet<String>)
    ensures
        texts_of(copy) == texts_of(*set),
{
    set.clone()
}

/// Calls `BlockFrostApi::new` with the given project id and
/// `BlockFrostSettings::default()`. Its source puts the project id, as given,
/// into the `project_id` header of the HTTP client that every request goes
/// through, and the default settings are the Cardano mainnet address, no
/// query parameters and no retries; the contract records that id and those
/// settings with the connection and claims nothing more of the client. The source panics when the project id is not a valid header
/// value, which `requires` leaves out; it also unwraps the building of its
/// HTTP client, which its source states cannot fail with only default
/// headers set.
#[verifier::external_body]
fn blockfrost_api(project_id: &str) -> (c: BlockFrostConnection)
    requires
        is_header_text(project_id@),
    ensures
        c.project_id() == project_id@,
        c.settings() == default_blockfrost_settings(),
{
    BlockFrostConnection {
        api: blockfrost::BlockFrostApi::new(project_id, Default::default()),
        project_id: Ghost(project_id@),
        settings: Ghost(default_blockfrost_settings()),
    }
}

/// The downloader's state: the BlockFrost connection, the settings, and the
/// cached set of valid collection ids. (The IPFS connection is opened by the
/// program that drives the downloads, since opening it reads `~/.ipfs/api`.)
pub struct Client {
    blockfrost_client: BlockFrostConnection,
    valid_cids: HashSet<String>,
    /// The URL of an HTTP GET endpoint listing the valid collections.
    pub book_api_url: String,
    /// If set to `true`, suppresses terminal-based progress bars and other
    /// output during file downloads. Defaults to `false`.
    pub quiet: bool,
    /// If set to `true`, downloads are slowed down with artificial sleeps.
    /// Defaults to `false`.
    pub slow: bool,
    /// If set to `true`, downloads are stopped at random completion
    /// percentages and act as if they were complete. Defaults to `false`.
    pub simulate_early_kill: bool,
}

/// What a [`Client`] holds, as mathematical values.
pub struct ClientView {
    /// The cached set of valid collection ids.
    pub valid_ids: Set<Seq<char>>,
    /// The collections endpoint.
    pub book_api_url: Seq<char>,
    /// Whether progress output is suppressed.
    pub quiet: bool,
    /// Whether downloads are slowed down.
    pub slow: bool,
    /// Whether downloads are stopped early at random.
    pub simulate_early_kill: bool,
    /// The BlockFrost project id that requests are authenticated with.
    pub project_id: Seq<char>,
    /// The settings that BlockFrost requests are made with.
    pub blockfrost_settings: BlockFrostSettingsView,
}

impl View for Client {
    type V = ClientView;

    closed spec fn view(&self) -> ClientView {
        ClientView {
            valid_ids: texts_of(self.valid_cids),
            book_api_url: self.book_api_url@,
            quiet: self.quiet,
            slow: self.slow,
            simulate_early_kill: self.simulate_early_kill,
            project_id: self.blockfrost_client.project_id(),
            blockfrost_settings: self.blockfrost_client.settings(),
        }
    }
}

impl Clone for Client {
    fn clone(&self) -> (c: Self)
        ensures
            c@ == self@,
    {
        Client {
            blockfrost_client: self.blockfrost_client.clone(),
            valid_cids: clone_ids(&self.valid_cids),
            book_api_url: self.book_api_url.clone(),
            quiet: self.quiet,
            slow: self.slow,
            simulate_early_kill: self.simulate_early_kill,
        }
    }
}

impl Client {
    /// The BlockFrost connection that the client holds: the one created with
    /// it, which no setting and no update replaces.
    pub closed spec fn blockfrost_connection(&self) -> blockfrost::BlockFrostApi {
        self.blockfrost_client.api()
    }

    /// The cached set of valid collection ids.
    pub open spec fn valid_ids(&self) -> Set<Seq<char>> {
        self@.valid_ids
    }

    /// Creates a [`Client`] using default values for all fields and the given
    /// BlockFrost project id.
    pub fn with_project_id(blockfrost_project_id: &str) -> (client: Client)
        requires
            is_header_text(blockfrost_project_id@),
        ensures
            client@ == (ClientView {
                valid_ids: Set::<Seq<char>>::empty(),
                book_api_url: BOOK_API_URL@,
                quiet: false,
                slow: false,
                simulate_early_kill: false,
                project_id: blockfrost_project_id@,
                blockfrost_settings: default_blockfrost_settings(),
            }),
    {
        let client = Client {
            blockfrost_client: blockfrost_api(blockfrost_project_id),
            book_api_url: String::from_str(BOOK_API_URL),
            valid_cids: HashSet::new(),
            quiet: false,
            slow: false,
            simulate_early_kill: false,
        };
        assert(texts_of(client.valid_cids) =~= Set::<Seq<char>>::empty());
        client
    }

    /// Creates a [`Client`] from the value of the `BLOCKFROST_PROJECT_ID`
    /// variable: without one, the project id is missing.
    pub fn from_project_id_var(project_id: Option<&str>) -> (r: Result<Client, CreateClientError>)
        requires
            project_id matches Some(id) ==> is_header_text(id@),
        ensures
            project_id is None <==> r == Err::<Client, CreateClientError>(CreateClientError::MissingProjectId),
            r matches Ok(client) ==> project_id matches Some(id) && client@ == (ClientView {
                valid_ids: Set::<Seq<char>>::empty(),
                book_api_url: BOOK_API_URL@,
                quiet: false,
                slow: false,
                simulate_early_kill: false,
                project_id: id@,
                blockfrost_settings: default_blockfrost_settings(),
            }),
    {
        match project_id {
            Some(id) => Ok(Client::with_project_id(id)),
            None => Err(CreateClientError::MissingProjectId),
        }
    }

    /// Replaces the cached set of valid collection ids by the ids of the
    /// Cardano collections in a response of the collections endpoint.
    pub fn update_collection_ids(&mut self, response: &CollectionResponse)
        ensures
            final(self)@ == (ClientView {
                valid_ids: cardano_ids(response.data@),
                ..old(self)@
            }),
            final(self).blockfrost_connection() == old(self).blockfrost_connection(),
    {
        self.valid_cids = cardano_collection_ids(&response.data);
    }

    /// Tells whether the cached set of valid collection ids is empty.
    pub fn has_no_collection_ids(&self) -> (empty: bool)
        ensures
            empty == (self.valid_ids() == Set::<Seq<char>>::empty()),
    {
        set_is_empty(&self.valid_cids)
    }

    /// Tells whether `policy_id` is among the cached valid collection ids.
    pub fn is_valid_collection_id(&self, policy_id: &str) -> (valid: bool)
        ensures
            valid == self.valid_ids().contains(policy_id@),
    {
        contains_text(&self.valid_cids, policy_id)
    }

    /// Sets the collections endpoint.
    pub fn set_book_api_url(&mut self, url: String)
        ensures
            final(self)@ == (ClientView { book_api_url: url@, ..old(self)@ }),
            final(self).blockfrost_connection() == old(self).blockfrost_connection(),
    {
        self.book_api_url = url;
    }

    /// Sets whether progress output is suppressed.
    pub fn set_quiet(&mut self, quiet: bool)
        ensures
            final(self)@ == (ClientView { quiet, ..old(self)@ }),
            final(self).blockfrost_connection() == old(self).blockfrost_connection(),
    {
        self.quiet = quiet;
    }

    /// Sets whether downloads are slowed down.
    pub fn set_slow(&mut self, slow: bool)
        ensures
            final(self)@ == (ClientView { slow, ..old(self)@ }),
            final(self).blockfrost_connection() == old(self).blockfrost_connection(),
    {
        self.slow = slow;
    }

    /// Sets whether downloads are stopped early at random.
    pub fn set_simulate_early_kill(&mut self, simulate_early_kill: bool)
        ensures
            final(self)@ == (ClientView { simulate_early_kill, ..old(self)@ }),
            final(self).blockfrost_connection() == old(self).blockfrost_connection(),
    {
        self.simulate_early_kill = simulate_early_kill;
    }

    /// The collections endpoint.
    pub fn book_api_url(&self) -> (url: &String)
        ensures
            url@ == self@.book_api_url,
    {
        &self.book_api_url
    }

    /// The BlockFrost client that assets are looked up with.
    pub fn blockfrost_client(&self) -> (api: &blockfrost::BlockFrostApi)
        ensures
            *api == self.blockfrost_connection(),
    {
        &self.blockfrost_client.api
    }
}

} // verus!
