//! The decisions of downloading the covers of a policy, as a state machine:
//! the driver performs each requested action (a request to the collections
//! endpoint, to BlockFrost, or the downloads) and hands back what came of it.

use vstd::prelude::*;
use crate::client::Client;
use crate::errors::{DownloadCoversError, UpdateCollectionIdsError};
use crate::json::JsonValue;
use crate::media::{extension_for, is_supported_extension, lemma_extension_is_supported, spec_extension_for};
use crate::metadata::{high_res_cover, reports_fault, spec_high_res_cover, MetadataFault};
use crate::text::same_text;

verus! {

/// One asset minted under a policy, as BlockFrost lists it.
#[derive(Debug)]
pub struct AssetEntry {
    /// The asset id: the policy id and the hex-encoded asset name.
    pub asset: String,
    /// The current quantity of the asset.
    pub quantity: String,
}

/// A cover to download: its IPFS source and the name of the file, within the
/// target directory, that it is saved to.
#[derive(Debug)]
pub struct CoverTarget {
    /// The IPFS source of the cover image.
    pub src: String,
    /// The file name: the asset id, a dot and the extension for the image type.
    pub file_name: String,
}

/// The stage a cover download has reached: what it waits for.
#[derive(Debug, Clone, Copy, PartialEq, Eq, Structural)]
pub enum CoverStage {
    /// Not started yet.
    Ready,
    /// Waiting for the set of valid collection ids to be updated.
    AwaitingCollectionIds,
    /// Waiting for the next page of the policy's assets.
    AwaitingAssetPage,
    /// Waiting for the details of the next asset.
    AwaitingAssetDetails,
    /// Waiting for the downloads to finish.
    AwaitingDownload,
    /// Done: the outcome has been given.
    Finished,
}

/// What the driver reports back to the cover download.
pub enum CoverEvent {
    /// The download begins.
    Start,
    /// The outcome of updating the client's valid collection ids.
    CollectionIdsUpdated(Result<(), UpdateCollectionIdsError>),
    /// The next page of the policy's assets; `None` when the listing ended.
    AssetPage(Option<Result<Vec<AssetEntry>, blockfrost::Error>>),
    /// The on-chain metadata of the asset that was asked for.
    AssetDetails(Result<Option<Vec<(String, JsonValue)>>, blockfrost::Error>),
    /// The outcome of downloading the requested files.
    FilesDownloaded(Result<(), DownloadCoversError>),
}

/// What the cover download asks the driver to do next.
#[derive(Debug)]
pub enum CoverAction {
    /// Update the client's valid collection ids from the collections endpoint.
    UpdateCollectionIds,
    /// Fetch the next page of the policy's assets.
    FetchAssetPage,
    /// Fetch the details of the asset with this id.
    FetchAssetDetails(String),
    /// Download these covers.
    DownloadFiles(Vec<CoverTarget>),
    /// Stop with this outcome: the covers that were downloaded, or the error.
    Finish(Result<Vec<CoverTarget>, DownloadCoversError>),
}

/// A cover target as values: `(src, file_name)`.
pub open spec fn target_view(t: CoverTarget) -> (Seq<char>, Seq<char>) {
    (t.src@, t.file_name@)
}

/// A list of cover targets as values.
pub open spec fn targets_view(ts: Seq<CoverTarget>) -> Seq<(Seq<char>, Seq<char>)> {
    ts.map_values(|t: CoverTarget| target_view(t))
}

/// What a [`CoverSession`] holds, as values.
pub struct CoverSessionView {
    /// The policy whose covers are downloaded.
    pub policy_id: Seq<char>,
    /// How many covers are wanted.
    pub num_covers: nat,
    /// What the session waits for.
    pub stage: CoverStage,
    /// The ids of the assets, with a quantity other than "0", collected so far.
    pub assets: Seq<Seq<char>>,
    /// The covers of the first assets, one per asset, in order.
    pub targets: Seq<(Seq<char>, Seq<char>)>,
}

/// The action that the driver is asked for, as values.
pub enum ActionView {
    /// See [`CoverAction::UpdateCollectionIds`].
    UpdateCollectionIds,
    /// See [`CoverAction::FetchAssetPage`].
    FetchAssetPage,
    /// See [`CoverAction::FetchAssetDetails`].
    FetchAssetDetails(Seq<char>),
    /// See [`CoverAction::DownloadFiles`].
    DownloadFiles(Seq<(Seq<char>, Seq<char>)>),
    /// A successful finish with these covers.
    FinishOk(Seq<(Seq<char>, Seq<char>)>),
    /// A finish with exactly this error.
    FinishErr(DownloadCoversError),
    /// A finish with the error that reports a metadata fault of an asset.
    FinishFault(Seq<char>, MetadataFault),
}

/// `action` is the action described by `expected`.
pub open spec fn action_matches(action: CoverAction, expected: ActionView) -> bool {
    match expected {
        ActionView::UpdateCollectionIds => action is UpdateCollectionIds,
        ActionView::FetchAssetPage => action is FetchAssetPage,
        ActionView::FetchAssetDetails(id) => action matches CoverAction::FetchAssetDetails(a) && a@ == id,
        ActionView::DownloadFiles(ts) => action matches CoverAction::DownloadFiles(v) && targets_view(v@) == ts,
        ActionView::FinishOk(ts) => action matches CoverAction::Finish(Ok(v)) && targets_view(v@) == ts,
        ActionView::FinishErr(e) => action == CoverAction::Finish(Err(e)),
        ActionView::FinishFault(id, fault) => action matches CoverAction::Finish(Err(e)) && reports_fault(e, id, fault),
    }
}

/// The session is at `stage`, otherwise unchanged.
pub open spec fn at_stage(s: CoverSessionView, stage: CoverStage) -> CoverSessionView {
    CoverSessionView { stage, ..s }
}

/// Once the assets are collected, the covers are looked up one asset after
/// the other; when every asset has its cover, they are downloaded. With no
/// asset collected there is nothing to download, and the download finishes
/// with no covers.
pub open spec fn spec_resolve(s: CoverSessionView) -> (CoverSessionView, ActionView) {
    if s.targets.len() < s.assets.len() {
        (at_stage(s, CoverStage::AwaitingAssetDetails), ActionView::FetchAssetDetails(s.assets[s.targets.len() as int]))
    } else if s.assets.len() == 0 {
        (at_stage(s, CoverStage::Finished), ActionView::FinishOk(s.targets))
    } else {
        (at_stage(s, CoverStage::AwaitingDownload), ActionView::DownloadFiles(s.targets))
    }
}

/// With the valid ids known: an unknown policy is refused, otherwise assets
/// are listed until enough of them are collected.
pub open spec fn spec_check_policy(s: CoverSessionView, ids: Set<Seq<char>>) -> (CoverSessionView, ActionView) {
    if !ids.contains(s.policy_id) {
        (at_stage(s, CoverStage::Finished), ActionView::FinishErr(DownloadCoversError::InvalidId))
    } else if s.assets.len() < s.num_covers {
        (at_stage(s, CoverStage::AwaitingAssetPage), ActionView::FetchAssetPage)
    } else {
        spec_resolve(s)
    }
}

/// The ids collected from a page of assets: those whose quantity is not "0",
/// in order, until `n` have been collected.
pub open spec fn spec_take_assets(acc: Seq<Seq<char>>, page: Seq<AssetEntry>, n: nat) -> Seq<Seq<char>>
    decreases page.len(),
{
    if page.len() == 0 || acc.len() >= n {
        acc
    } else if page[0].quantity@ != "0"@ {
        spec_take_assets(acc.push(page[0].asset@), page.drop_first(), n)
    } else {
        spec_take_assets(acc, page.drop_first(), n)
    }
}

/// The name of the file for the cover of an asset.
pub open spec fn spec_cover_file_name(asset_id: Seq<char>, media_type: Seq<char>) -> Seq<char> {
    asset_id + "."@ + spec_extension_for(media_type)
}

/// One step of a cover download: the next state and the action asked for,
/// given the client's valid ids and the event that the driver reports.
pub open spec fn spec_step(s: CoverSessionView, ids: Set<Seq<char>>, event: CoverEvent) -> (CoverSessionView, ActionView) {
    match event {
        CoverEvent::Start => if ids == Set::<Seq<char>>::empty() {
            (at_stage(s, CoverStage::AwaitingCollectionIds), ActionView::UpdateCollectionIds)
        } else {
            spec_check_policy(s, ids)
        },
        CoverEvent::CollectionIdsUpdated(Err(e)) =>
            (at_stage(s, CoverStage::Finished), ActionView::FinishErr(DownloadCoversError::UpdateCollectionIds(e))),
        CoverEvent::CollectionIdsUpdated(Ok(())) => spec_check_policy(s, ids),
        CoverEvent::AssetPage(None) => spec_resolve(s),
        CoverEvent::AssetPage(Some(Err(e))) =>
            (at_stage(s, CoverStage::Finished), ActionView::FinishErr(DownloadCoversError::BlockFrost(e))),
        CoverEvent::AssetPage(Some(Ok(page))) => {
            let s2 = CoverSessionView { assets: spec_take_assets(s.assets, page@, s.num_covers), ..s };
            if s2.assets.len() < s.num_covers {
                (at_stage(s2, CoverStage::AwaitingAssetPage), ActionView::FetchAssetPage)
            } else {
                spec_resolve(s2)
            }
        },
        CoverEvent::AssetDetails(Err(e)) =>
            (at_stage(s, CoverStage::Finished), ActionView::FinishErr(DownloadCoversError::BlockFrost(e))),
        CoverEvent::AssetDetails(Ok(metadata)) => {
            let id = s.assets[s.targets.len() as int];
            match spec_high_res_cover(metadata) {
                Err(fault) => (at_stage(s, CoverStage::Finished), ActionView::FinishFault(id, fault)),
                Ok((src, media_type)) => spec_resolve(CoverSessionView {
                    targets: s.targets.push((src, spec_cover_file_name(id, media_type))),
                    ..s
                }),
            }
        },
        CoverEvent::FilesDownloaded(Err(e)) => (at_stage(s, CoverStage::Finished), ActionView::FinishErr(e)),
        CoverEvent::FilesDownloaded(Ok(())) => (at_stage(s, CoverStage::Finished), ActionView::FinishOk(s.targets)),
    }
}

/// The event is the one that the stage waits for.
pub open spec fn spec_accepts(stage: CoverStage, event: CoverEvent) -> bool {
    match stage {
        CoverStage::Ready => event is Start,
        CoverStage::AwaitingCollectionIds => event is CollectionIdsUpdated,
        CoverStage::AwaitingAssetPage => event is AssetPage,
        CoverStage::AwaitingAssetDetails => event is AssetDetails,
        CoverStage::AwaitingDownload => event is FilesDownloaded,
        CoverStage::Finished => false,
    }
}

/// A download of `num_covers` covers of the policy `policy_id` that has not
/// started yet.
pub open spec fn spec_new_session(policy_id: Seq<char>, num_covers: nat) -> CoverSessionView {
    CoverSessionView {
        policy_id,
        num_covers,
        stage: CoverStage::Ready,
        assets: Seq::empty(),
        targets: Seq::empty(),
    }
}

/// The state reached and the actions asked for when the events `events` are
/// reported one after the other, from the state `s`, with the valid ids `ids`.
pub open spec fn spec_run(s: CoverSessionView, ids: Set<Seq<char>>, events: Seq<CoverEvent>) -> (CoverSessionView, Seq<ActionView>)
    decreases events.len(),
{
    if events.len() == 0 {
        (s, Seq::empty())
    } else {
        let (next, action) = spec_step(s, ids, events[0]);
        let (last, actions) = spec_run(next, ids, events.drop_first());
        (last, seq![action] + actions)
    }
}

/// `name` is `{asset_id}.{ext}` for a supported extension `ext`.
pub open spec fn is_cover_file_name(name: Seq<char>, asset_id: Seq<char>) -> bool {
    exists|ext: Seq<char>| is_supported_extension(ext) && name == asset_id + "."@ + ext
}

/// What holds of every state a cover download reaches: at most `num_covers`
/// assets are collected, covers are known for a prefix of them, each saved
/// as `{asset_id}.{ext}` with a supported extension, and the stage agrees
/// with how far the work has come.
pub open spec fn spec_invariant(s: CoverSessionView) -> bool {
    &&& s.assets.len() <= s.num_covers
    &&& s.targets.len() <= s.assets.len()
    &&& forall|i: int| 0 <= i < s.targets.len() ==> is_cover_file_name(#[trigger] s.targets[i].1, s.assets[i])
    &&& (s.stage == CoverStage::Ready ==> s.assets.len() == 0 && s.targets.len() == 0)
    &&& (s.stage == CoverStage::AwaitingCollectionIds ==> s.assets.len() == 0 && s.targets.len() == 0)
    &&& (s.stage == CoverStage::AwaitingAssetPage ==> s.assets.len() < s.num_covers && s.targets.len() == 0)
    &&& (s.stage == CoverStage::AwaitingAssetDetails ==> s.targets.len() < s.assets.len())
    &&& (s.stage == CoverStage::AwaitingDownload ==> s.targets.len() == s.assets.len())
}

/// The download of the covers of one policy.
pub struct CoverSession {
    policy_id: String,
    num_covers: usize,
    stage: CoverStage,
    assets: Vec<String>,
    targets: Vec<CoverTarget>,
}

impl View for CoverSession {
    type V = CoverSessionView;

    closed spec fn view(&self) -> CoverSessionView {
        CoverSessionView {
            policy_id: self.policy_id@,
            num_covers: self.num_covers as nat,
            stage: self.stage,
            assets: self.assets@.map_values(|a: String| a@),
            targets: targets_view(self.targets@),
        }
    }
}

/// Copies a list of cover targets.
fn copy_targets(ts: &Vec<CoverTarget>) -> (copy: Vec<CoverTarget>)
    ensures
        targets_view(copy@) == targets_view(ts@),
{
    let mut copy: Vec<CoverTarget> = Vec::new();
    let mut i: usize = 0;
    while i < ts.len()
        invariant
            i <= ts@.len(),
            targets_view(copy@) == targets_view(ts@.take(i as int)),
        decreases ts@.len() - i,
    {
        let ghost before = copy@;
        copy.push(CoverTarget { src: ts[i].src.clone(), file_name: ts[i].file_name.clone() });
        assert(ts@.take(i + 1) =~= ts@.take(i as int).push(ts@[i as int]));
        assert(targets_view(copy@) =~= targets_view(before).push(target_view(ts@[i as int])));
        assert(targets_view(ts@.take(i + 1)) =~= targets_view(ts@.take(i as int)).push(target_view(ts@[i as int])));
        i = i + 1;
    }
    assert(ts@.take(ts@.len() as int) =~= ts@);
    copy
}

/// The name of the file for the cover of an asset: the asset id, a dot and
/// the extension for the cover's media type.
pub fn cover_file_name(asset_id: &str, media_type: &str) -> (name: String)
    ensures
        name@ == spec_cover_file_name(asset_id@, media_type@),
{
    let mut name = String::from_str(asset_id);
    name.append(".");
    name.append(extension_for(media_type));
    name
}

impl CoverSession {
    /// The session satisfies the invariant of cover downloads.
    pub open spec fn wf(&self) -> bool {
        spec_invariant(self@)
    }

    /// Starts the download of `num_covers` covers of the policy `policy_id`.
    pub fn new(policy_id: &str, num_covers: usize) -> (s: CoverSession)
        ensures
            s@ == spec_new_session(policy_id@, num_covers as nat),
            s.wf(),
    {
        let s = CoverSession {
            policy_id: String::from_str(policy_id),
            num_covers,
            stage: CoverStage::Ready,
            assets: Vec::new(),
            targets: Vec::new(),
        };
        assert(s@.assets =~= Seq::<Seq<char>>::empty());
        assert(s@.targets =~= Seq::<(Seq<char>, Seq<char>)>::empty());
        s
    }

    /// The stage the session has reached.
    pub fn stage(&self) -> (stage: CoverStage)
        ensures
            stage == self@.stage,
    {
        self.stage
    }

    /// Tells whether `event` is the one the session waits for.
    pub fn accepts(&self, event: &CoverEvent) -> (ok: bool)
        ensures
            ok == spec_accepts(self@.stage, *event),
    {
        match (self.stage, event) {
            (CoverStage::Ready, CoverEvent::Start) => true,
            (CoverStage::AwaitingCollectionIds, CoverEvent::CollectionIdsUpdated(_)) => true,
            (CoverStage::AwaitingAssetPage, CoverEvent::AssetPage(_)) => true,
            (CoverStage::AwaitingAssetDetails, CoverEvent::AssetDetails(_)) => true,
            (CoverStage::AwaitingDownload, CoverEvent::FilesDownloaded(_)) => true,
            _ => false,
        }
    }

    fn resolve(&mut self) -> (action: CoverAction)
        requires
            old(self).assets@.len() <= old(self).num_covers,
            old(self).targets@.len() <= old(self).assets@.len(),
        ensures
            ({
                let (post, expected) = spec_resolve(old(self)@);
                final(self)@ == post && action_matches(action, expected)
            }),
    {
        if self.targets.len() < self.assets.len() {
            self.stage = CoverStage::AwaitingAssetDetails;
            CoverAction::FetchAssetDetails(self.assets[self.targets.len()].clone())
        } else if self.assets.len() == 0 {
            self.stage = CoverStage::Finished;
            let none: Vec<CoverTarget> = Vec::new();
            assert(targets_view(none@) =~= targets_view(self.targets@));
            CoverAction::Finish(Ok(none))
        } else {
            self.stage = CoverStage::AwaitingDownload;
            CoverAction::DownloadFiles(copy_targets(&self.targets))
        }
    }

    fn check_policy(&mut self, client: &Client) -> (action: CoverAction)
        requires
            old(self).assets@.len() <= old(self).num_covers,
            old(self).targets@.len() <= old(self).assets@.len(),
        ensures
            ({
                let (post, expected) = spec_check_policy(old(self)@, client.valid_ids());
                final(self)@ == post && action_matches(action, expected)
            }),
    {
        if !client.is_valid_collection_id(self.policy_id.as_str()) {
            self.stage = CoverStage::Finished;
            CoverAction::Finish(Err(DownloadCoversError::InvalidId))
        } else if self.assets.len() < self.num_covers {
            self.stage = CoverStage::AwaitingAssetPage;
            CoverAction::FetchAssetPage
        } else {
            self.resolve()
        }
    }

    fn take_assets(&mut self, page: &Vec<AssetEntry>)
        requires
            old(self).assets@.len() <= old(self).num_covers,
        ensures
            final(self)@ == (CoverSessionView {
                assets: spec_take_assets(old(self)@.assets, page@, old(self)@.num_covers),
                ..old(self)@
            }),
            final(self).assets@.len() <= final(self).num_covers,
            final(self).targets@ == old(self).targets@,
    {
        let ghost n = self.num_covers as nat;
        let ghost start = self@.assets;
        let mut i: usize = 0;
        assert(page@.skip(0) =~= page@);
        while i < page.len() && self.assets.len() < self.num_covers
            invariant
                i <= page@.len(),
                self.assets@.len() <= self.num_covers,
                self.num_covers == old(self).num_covers,
                self.policy_id == old(self).policy_id,
                self.stage == old(self).stage,
                self.targets@ == old(self).targets@,
                n == self.num_covers as nat,
                spec_take_assets(start, page@, n) == spec_take_assets(self@.assets, page@.skip(i as int), n),
            decreases page@.len() - i,
        {
            let entry = &page[i];
            let ghost acc = self@.assets;
            assert(page@.skip(i as int).drop_first() =~= page@.skip(i + 1));
            assert(page@.skip(i as int)[0] == page@[i as int]);
            if !same_text(entry.quantity.as_str(), "0") {
                self.assets.push(entry.asset.clone());
                assert(self@.assets =~= acc.push(entry.asset@));
            }
            i = i + 1;
        }
        assert(spec_take_assets(self@.assets, page@.skip(i as int), n) == self@.assets);
    }

    /// Advances the download with the event the driver reports, and returns
    /// what the driver should do next.
    pub fn step(&mut self, client: &Client, event: CoverEvent) -> (action: CoverAction)
        requires
            old(self).wf(),
            spec_accepts(old(self)@.stage, event),
        ensures
            ({
                let (post, expected) = spec_step(old(self)@, client.valid_ids(), event);
                final(self)@ == post && action_matches(action, expected)
            }),
            final(self).wf(),
    {
        proof { lemma_step_keeps_invariant(self@, client.valid_ids(), event); }
        let ghost ids = client.valid_ids();
        match event {
            CoverEvent::Start => {
                if client.has_no_collection_ids() {
                    self.stage = CoverStage::AwaitingCollectionIds;
                    CoverAction::UpdateCollectionIds
                } else {
                    self.check_policy(client)
                }
            },
            CoverEvent::CollectionIdsUpdated(Err(e)) => {
                self.stage = CoverStage::Finished;
                CoverAction::Finish(Err(DownloadCoversError::UpdateCollectionIds(e)))
            },
            CoverEvent::CollectionIdsUpdated(Ok(())) => self.check_policy(client),
            CoverEvent::AssetPage(None) => self.resolve(),
            CoverEvent::AssetPage(Some(Err(e))) => {
                self.stage = CoverStage::Finished;
                CoverAction::Finish(Err(DownloadCoversError::BlockFrost(e)))
            },
            CoverEvent::AssetPage(Some(Ok(page))) => {
                self.take_assets(&page);
                if self.assets.len() < self.num_covers {
                    self.stage = CoverStage::AwaitingAssetPage;
                    CoverAction::FetchAssetPage
                } else {
                    self.resolve()
                }
            },
            CoverEvent::AssetDetails(Err(e)) => {
                self.stage = CoverStage::Finished;
                CoverAction::Finish(Err(DownloadCoversError::BlockFrost(e)))
            },
            CoverEvent::AssetDetails(Ok(metadata)) => {
                let index = self.targets.len();
                let asset_id = self.assets[index].clone();
                match high_res_cover(asset_id.clone(), &metadata) {
                    Err(e) => {
                        self.stage = CoverStage::Finished;
                        CoverAction::Finish(Err(e))
                    },
                    Ok(cover) => {
                        let file_name = cover_file_name(asset_id.as_str(), cover.media_type.as_str());
                        let ghost before = self.targets@;
                        self.targets.push(CoverTarget { src: cover.src, file_name });
                        assert(targets_view(self.targets@) =~= targets_view(before).push((cover.src@, file_name@)));
                        self.resolve()
                    },
                }
            },
            CoverEvent::FilesDownloaded(Err(e)) => {
                self.stage = CoverStage::Finished;
                CoverAction::Finish(Err(e))
            },
            CoverEvent::FilesDownloaded(Ok(())) => {
                self.stage = CoverStage::Finished;
                CoverAction::Finish(Ok(copy_targets(&self.targets)))
            },
        }
    }
}

proof fn lemma_take_assets_bound(acc: Seq<Seq<char>>, page: Seq<AssetEntry>, n: nat)
    requires
        acc.len() <= n,
    ensures
        spec_take_assets(acc, page, n).len() <= n,
        spec_take_assets(acc, page, n).len() >= acc.len(),
        spec_take_assets(acc, page, n).subrange(0, acc.len() as int) == acc,
    decreases page.len(),
{
    if page.len() == 0 || acc.len() >= n {
        assert(acc.subrange(0, acc.len() as int) =~= acc);
    } else if page[0].quantity@ != "0"@ {
        let next = acc.push(page[0].asset@);
        lemma_take_assets_bound(next, page.drop_first(), n);
        let r = spec_take_assets(next, page.drop_first(), n);
        assert(r.subrange(0, acc.len() as int) =~= r.subrange(0, next.len() as int).subrange(0, acc.len() as int));
        assert(next.subrange(0, acc.len() as int) =~= acc);
    } else {
        lemma_take_assets_bound(acc, page.drop_first(), n);
    }
}

/// An asset that is still held: its quantity is not "0".
pub open spec fn is_held() -> spec_fn(AssetEntry) -> bool {
    |e: AssetEntry| e.quantity@ != "0"@
}

/// The ids of the assets of `page` that are still held, in the page's order.
pub open spec fn held_asset_ids(page: Seq<AssetEntry>) -> Seq<Seq<char>> {
    page.filter(is_held()).map_values(|e: AssetEntry| e.asset@)
}

/// At most the first `room` elements of `ids`.
pub open spec fn at_most(ids: Seq<Seq<char>>, room: nat) -> Seq<Seq<char>> {
    if ids.len() <= room { ids } else { ids.take(room as int) }
}

/// Taking the assets of a page adds, after those collected before, the ids
/// of the page's assets whose quantity is not "0", in the page's order, and
/// stops once `n` ids are collected in all: no held asset is skipped and no
/// other asset is taken.
pub proof fn lemma_take_assets_are_held_in_order(acc: Seq<Seq<char>>, page: Seq<AssetEntry>, n: nat)
    requires
        acc.len() <= n,
    ensures
        spec_take_assets(acc, page, n) == acc + at_most(held_asset_ids(page), (n - acc.len()) as nat),
    decreases page.len(),
{
    let room = (n - acc.len()) as nat;
    if page.len() == 0 {
        assert(page.filter(is_held()) =~= Seq::<AssetEntry>::empty());
        assert(acc + at_most(held_asset_ids(page), room) =~= acc);
    } else if acc.len() >= n {
        assert(at_most(held_asset_ids(page), room) =~= Seq::<Seq<char>>::empty());
        assert(acc + at_most(held_asset_ids(page), room) =~= acc);
    } else {
        let first = seq![page[0]];
        let rest = page.drop_first();
        assert(page =~= first + rest);
        Seq::filter_distributes_over_add(first, rest, is_held());
        reveal_with_fuel(Seq::filter, 2);
        assert(first.drop_last() =~= Seq::<AssetEntry>::empty());
        let held_rest = held_asset_ids(rest);
        if page[0].quantity@ != "0"@ {
            assert(first.filter(is_held()) =~= first);
            assert(page.filter(is_held()) =~= first + rest.filter(is_held()));
            assert(held_asset_ids(page) =~= seq![page[0].asset@] + held_rest);
            lemma_take_assets_are_held_in_order(acc.push(page[0].asset@), rest, n);
            let tail = at_most(held_rest, (room - 1) as nat);
            assert(at_most(held_asset_ids(page), room) =~= seq![page[0].asset@] + tail);
            assert(acc.push(page[0].asset@) + tail =~= acc + (seq![page[0].asset@] + tail));
        } else {
            assert(first.filter(is_held()) =~= Seq::<AssetEntry>::empty());
            assert(page.filter(is_held()) =~= rest.filter(is_held()));
            lemma_take_assets_are_held_in_order(acc, rest, n);
        }
    }
}

/// Listing the assets goes on while fewer than `num_covers` held assets are
/// collected: a page adds its held assets, and the next page is asked for
/// exactly when there is still room; once enough are collected, or the
/// listing ended, the cover of the first collected asset is looked up, and
/// with no asset at all the download succeeds with no cover.
pub proof fn lemma_listing_collects_enough(s: CoverSessionView, ids: Set<Seq<char>>, page: Vec<AssetEntry>)
    requires
        spec_invariant(s),
        s.stage == CoverStage::AwaitingAssetPage,
    ensures
        ({
            let (post, action) = spec_step(s, ids, CoverEvent::AssetPage(Some(Ok(page))));
            &&& post.assets == s.assets + at_most(held_asset_ids(page@), (s.num_covers - s.assets.len()) as nat)
            &&& (action is FetchAssetPage) <==> post.assets.len() < s.num_covers
            &&& post.assets.len() == s.num_covers ==> action == ActionView::FetchAssetDetails(post.assets[0])
        }),
        ({
            let (post, action) = spec_step(s, ids, CoverEvent::AssetPage(None));
            &&& post.assets == s.assets
            &&& s.assets.len() == 0 ==> action == ActionView::FinishOk(Seq::empty())
            &&& s.assets.len() > 0 ==> action == ActionView::FetchAssetDetails(s.assets[0])
        }),
{
    lemma_take_assets_are_held_in_order(s.assets, page@, s.num_covers);
    lemma_take_assets_bound(s.assets, page@, s.num_covers);
    let post = spec_step(s, ids, CoverEvent::AssetPage(Some(Ok(page)))).0;
    assert(post.targets.len() == 0);
    if s.assets.len() == 0 {
        assert(s.targets =~= Seq::<(Seq<char>, Seq<char>)>::empty());
    }
}

/// The covers are looked up one collected asset after the other, in order:
/// the cover found for an asset is saved as the asset id, a dot and the
/// extension for its media type, and then the next asset is looked up, or,
/// after the last one, every cover found is downloaded; a fault in the
/// metadata of the asset stops the download with that fault for that asset.
pub proof fn lemma_covers_follow_the_assets(s: CoverSessionView, ids: Set<Seq<char>>, metadata: Option<Vec<(String, JsonValue)>>)
    requires
        spec_invariant(s),
        s.stage == CoverStage::AwaitingAssetDetails,
    ensures
        ({
            let k = s.targets.len() as int;
            let (post, action) = spec_step(s, ids, CoverEvent::AssetDetails(Ok(metadata)));
            match spec_high_res_cover(metadata) {
                Ok((src, media_type)) => {
                    &&& post.assets == s.assets
                    &&& post.targets == s.targets.push((src, s.assets[k] + "."@ + spec_extension_for(media_type)))
                    &&& k + 1 < s.assets.len() ==> action == ActionView::FetchAssetDetails(s.assets[k + 1])
                    &&& k + 1 == s.assets.len() ==> action == ActionView::DownloadFiles(post.targets)
                },
                Err(fault) => action == ActionView::FinishFault(s.assets[k], fault)
                    && post.stage == CoverStage::Finished,
            }
        }),
{
}

/// Every step from a state that satisfies the invariant, on the event that
/// the state waits for, reaches a state that satisfies it again.
pub proof fn lemma_step_keeps_invariant(s: CoverSessionView, ids: Set<Seq<char>>, event: CoverEvent)
    requires
        spec_invariant(s),
        spec_accepts(s.stage, event),
    ensures
        spec_invariant(spec_step(s, ids, event).0),
{
    match event {
        CoverEvent::AssetPage(Some(Ok(page))) => {
            lemma_take_assets_bound(s.assets, page@, s.num_covers);
            let s2 = CoverSessionView { assets: spec_take_assets(s.assets, page@, s.num_covers), ..s };
            assert(s2.targets.len() == 0);
            assert(s2.assets.len() <= s2.num_covers);
            if s2.assets.len() < s.num_covers {
                assert(spec_invariant(at_stage(s2, CoverStage::AwaitingAssetPage)));
                assert(spec_step(s, ids, event).0 == at_stage(s2, CoverStage::AwaitingAssetPage));
            } else {
                assert(spec_invariant(spec_resolve(s2).0));
                assert(spec_step(s, ids, event).0 == spec_resolve(s2).0);
            }
        },
        CoverEvent::AssetDetails(Ok(metadata)) => {
            let id = s.assets[s.targets.len() as int];
            match spec_high_res_cover(metadata) {
                Ok((src, media_type)) => {
                    let t2 = s.targets.push((src, spec_cover_file_name(id, media_type)));
                    lemma_extension_is_supported(media_type);
                    assert forall|i: int| 0 <= i < t2.len() implies is_cover_file_name(#[trigger] t2[i].1, s.assets[i]) by {
                        if i < s.targets.len() {
                            assert(t2[i] == s.targets[i]);
                        } else {
                            let ext = spec_extension_for(media_type);
                            assert(t2[i].1 == s.assets[i] + "."@ + ext);
                        }
                    }
                },
                Err(_) => {},
            }
        },
        _ => {
            let post = spec_step(s, ids, event).0;
            assert(post.assets == s.assets && post.targets == s.targets);
            assert forall|i: int| 0 <= i < post.targets.len() implies is_cover_file_name(#[trigger] post.targets[i].1, post.assets[i]) by {
                assert(post.targets[i] == s.targets[i]);
            }
        },
    }
}

/// The action finishes the download.
pub open spec fn is_finish(a: ActionView) -> bool {
    a is FinishOk || a is FinishErr || a is FinishFault
}

/// A download stops exactly when it asks to finish, and once stopped it
/// takes no further event; until then it waits for exactly one kind of event.
pub proof fn lemma_finish_iff_finished(s: CoverSessionView, ids: Set<Seq<char>>, event: CoverEvent)
    requires
        spec_invariant(s),
        spec_accepts(s.stage, event),
    ensures
        is_finish(spec_step(s, ids, event).1) <==> spec_step(s, ids, event).0.stage == CoverStage::Finished,
        forall|e: CoverEvent| !spec_accepts(CoverStage::Finished, e),
{
}

/// The valid collection ids are fetched when, and only when, the client has
/// none cached as the download starts; a policy that is not among the valid
/// ids is refused with `InvalidId`, and a valid one goes on to list assets.
pub proof fn lemma_policy_is_checked(s: CoverSessionView, ids: Set<Seq<char>>)
    requires
        spec_invariant(s),
        s.stage == CoverStage::Ready,
    ensures
        (spec_step(s, ids, CoverEvent::Start).1 is UpdateCollectionIds) <==> ids == Set::<Seq<char>>::empty(),
        ids != Set::<Seq<char>>::empty() ==> (
            spec_step(s, ids, CoverEvent::Start).1 == ActionView::FinishErr(DownloadCoversError::InvalidId)
                <==> !ids.contains(s.policy_id)),
        spec_step(s, ids, CoverEvent::CollectionIdsUpdated(Ok(()))).1 == ActionView::FinishErr(DownloadCoversError::InvalidId)
            <==> !ids.contains(s.policy_id),
        ids.contains(s.policy_id) && s.num_covers > 0 ==>
            spec_step(s, ids, CoverEvent::CollectionIdsUpdated(Ok(()))).1 is FetchAssetPage,
{
}

/// A download that starts with the valid ids cached goes as one that first
/// had to fetch them: after the fetch, given the same answers from BlockFrost
/// and the same outcome of the downloads, both reach the same state and ask
/// for the same actions, down to the covers they finish with. So a download
/// repeated with the ids that the first one fetched asks for the same files,
/// under the same names, and returns the same covers.
pub proof fn lemma_cached_ids_run_like_fetched(policy_id: Seq<char>, num_covers: nat, ids: Set<Seq<char>>, events: Seq<CoverEvent>)
    requires
        ids != Set::<Seq<char>>::empty(),
    ensures
        ({
            let fresh = spec_new_session(policy_id, num_covers);
            let (waiting, first) = spec_step(fresh, Set::<Seq<char>>::empty(), CoverEvent::Start);
            &&& first == ActionView::UpdateCollectionIds
            &&& spec_run(waiting, ids, seq![CoverEvent::CollectionIdsUpdated(Ok(()))] + events)
                == spec_run(fresh, ids, seq![CoverEvent::Start] + events)
        }),
{
    let fresh = spec_new_session(policy_id, num_covers);
    let waiting = spec_step(fresh, Set::<Seq<char>>::empty(), CoverEvent::Start).0;
    let updated = seq![CoverEvent::CollectionIdsUpdated(Ok(()))] + events;
    let started = seq![CoverEvent::Start] + events;
    assert(updated[0] == CoverEvent::CollectionIdsUpdated(Ok(())));
    assert(started[0] == CoverEvent::Start);
    assert(updated.drop_first() =~= events);
    assert(started.drop_first() =~= events);
    assert(spec_step(waiting, ids, updated[0]) == spec_step(fresh, ids, started[0]));
}

/// Every failure that the driver reports ends the download at once with
/// that failure: a failed update of the valid ids, a failed page of assets
/// or asset lookup from BlockFrost, and any error of the downloads.
pub proof fn lemma_reported_errors_finish(s: CoverSessionView, ids: Set<Seq<char>>, event: CoverEvent)
    ensures
        event matches CoverEvent::CollectionIdsUpdated(Err(e)) ==> spec_step(s, ids, event) == (
            CoverSessionView { stage: CoverStage::Finished, ..s },
            ActionView::FinishErr(DownloadCoversError::UpdateCollectionIds(e))),
        event matches CoverEvent::AssetPage(Some(Err(e))) ==> spec_step(s, ids, event) == (
            CoverSessionView { stage: CoverStage::Finished, ..s },
            ActionView::FinishErr(DownloadCoversError::BlockFrost(e))),
        event matches CoverEvent::AssetDetails(Err(e)) ==> spec_step(s, ids, event) == (
            CoverSessionView { stage: CoverStage::Finished, ..s },
            ActionView::FinishErr(DownloadCoversError::BlockFrost(e))),
        event matches CoverEvent::FilesDownloaded(Err(e)) ==> spec_step(s, ids, event) == (
            CoverSessionView { stage: CoverStage::Finished, ..s },
            ActionView::FinishErr(e)),
{
}

/// A download succeeds with covers only once the driver reports that the
/// files were downloaded, and then returns exactly the covers it asked for;
/// otherwise it can only succeed with no cover at all, when no asset was
/// collected. Waiting for the downloads, it succeeds on nothing else.
pub proof fn lemma_success_needs_downloads(s: CoverSessionView, ids: Set<Seq<char>>, event: CoverEvent)
    requires
        spec_invariant(s),
        spec_accepts(s.stage, event),
    ensures
        spec_step(s, ids, event).1 matches ActionView::FinishOk(ts) ==> (
            (event == CoverEvent::FilesDownloaded(Ok(())) && s.stage == CoverStage::AwaitingDownload && ts == s.targets)
            || (ts.len() == 0 && spec_step(s, ids, event).0.assets.len() == 0 && !(event is FilesDownloaded))),
        s.stage == CoverStage::AwaitingDownload && spec_step(s, ids, event).1 is FinishOk
            ==> event == CoverEvent::FilesDownloaded(Ok(())),
{
    match event {
        CoverEvent::FilesDownloaded(Ok(u)) => {
            assert(s.stage == CoverStage::AwaitingDownload);
            assert(u == ());
            assert(event == CoverEvent::FilesDownloaded(Ok(())));
        },
        CoverEvent::FilesDownloaded(Err(_)) => {},
        _ => {
            lemma_step_keeps_invariant(s, ids, event);
        },
    }
}

/// No step drops what was collected: the policy and the number of covers
/// stay, the assets collected so far stay in front of those collected later,
/// and so do the covers found so far.
pub proof fn lemma_collected_assets_are_kept(s: CoverSessionView, ids: Set<Seq<char>>, event: CoverEvent)
    requires
        spec_invariant(s),
        spec_accepts(s.stage, event),
    ensures
        ({
            let post = spec_step(s, ids, event).0;
            &&& post.policy_id == s.policy_id
            &&& post.num_covers == s.num_covers
            &&& s.assets.len() <= post.assets.len()
            &&& post.assets.subrange(0, s.assets.len() as int) == s.assets
            &&& s.targets.len() <= post.targets.len()
            &&& post.targets.subrange(0, s.targets.len() as int) == s.targets
        }),
{
    let post = spec_step(s, ids, event).0;
    match event {
        CoverEvent::AssetPage(Some(Ok(page))) => {
            lemma_take_assets_bound(s.assets, page@, s.num_covers);
            assert(post.targets =~= s.targets);
            assert(post.targets.subrange(0, s.targets.len() as int) =~= s.targets);
        },
        CoverEvent::AssetDetails(Ok(metadata)) => {
            assert(post.assets =~= s.assets);
            assert(post.assets.subrange(0, s.assets.len() as int) =~= s.assets);
            match spec_high_res_cover(metadata) {
                Ok(_) => {
                    assert(post.targets.subrange(0, s.targets.len() as int) =~= s.targets);
                },
                Err(_) => {
                    assert(post.targets.subrange(0, s.targets.len() as int) =~= s.targets);
                },
            }
        },
        _ => {
            assert(post.assets =~= s.assets);
            assert(post.targets =~= s.targets);
            assert(post.assets.subrange(0, s.assets.len() as int) =~= s.assets);
            assert(post.targets.subrange(0, s.targets.len() as int) =~= s.targets);
        },
    }
}

/// The covers that are downloaded, and that a successful download returns,
/// are one per collected asset, in order, at most `num_covers` of them, each
/// saved as `{asset_id}.{ext}` with a supported extension.
pub proof fn lemma_one_cover_per_asset(s: CoverSessionView, ids: Set<Seq<char>>, event: CoverEvent)
    requires
        spec_invariant(s),
        spec_accepts(s.stage, event),
    ensures
        ({
            let (post, action) = spec_step(s, ids, event);
            match action {
                ActionView::DownloadFiles(ts) | ActionView::FinishOk(ts) => {
                    &&& ts == post.targets
                    &&& ts.len() == post.assets.len()
                    &&& ts.len() <= s.num_covers
                    &&& forall|i: int| 0 <= i < ts.len() ==> is_cover_file_name(#[trigger] ts[i].1, post.assets[i])
                },
                _ => true,
            }
        }),
{
    lemma_step_keeps_invariant(s, ids, event);
}

} // verus!
