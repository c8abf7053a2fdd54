//! Decisions of a single download: where to resume, whether the result is
//! whole, and what a batch of downloads reports.

use vstd::prelude::*;
use crate::errors::{DownloadCoversError, DownloadError, DownloadErrorInner};

verus! {

/// What to do for a file that should end up holding `total_size` bytes.
#[derive(Debug, PartialEq, Eq, Structural)]
pub enum ResumePlan {
    /// The file already holds exactly the expected number of bytes: leave it.
    AlreadyComplete,
    /// Open the file (creating it if absent) but fetch nothing: it already
    /// holds `start` bytes, at least as many as expected.
    NothingToFetch {
        /// The bytes already in the file.
        start: u64,
    },
    /// Open the file (creating it if absent), keep its `start` bytes and
    /// append the `length` bytes of the content that follow them.
    Fetch {
        /// The bytes already in the file, and the offset to fetch from.
        start: u64,
        /// How many bytes to fetch.
        length: u64,
    },
}

/// The plan for a file whose current length is `existing_len` (`None` when it
/// does not exist) and that should hold `total_size` bytes.
pub open spec fn spec_plan_resume(existing_len: Option<u64>, total_size: u64) -> ResumePlan {
    let start: u64 = match existing_len {
        Some(len) => len,
        None => 0,
    };
    if existing_len == Some(total_size) {
        ResumePlan::AlreadyComplete
    } else if total_size > start {
        ResumePlan::Fetch { start, length: (total_size - start) as u64 }
    } else {
        ResumePlan::NothingToFetch { start }
    }
}

/// Decides how a download resumes: a complete file is skipped, a partial one
/// is continued from its end, a missing one is fetched from the start.
pub fn plan_resume(existing_len: Option<u64>, total_size: u64) -> (plan: ResumePlan)
    ensures
        plan == spec_plan_resume(existing_len, total_size),
{
    let start: u64 = match existing_len {
        Some(len) => len,
        None => 0,
    };
    if existing_len == Some(total_size) {
        ResumePlan::AlreadyComplete
    } else if total_size > start {
        ResumePlan::Fetch { start, length: total_size - start }
    } else {
        ResumePlan::NothingToFetch { start }
    }
}

/// Checks the length of a finished download against the expected size.
pub fn check_download_size(final_len: u64, total_size: u64) -> (r: Result<(), DownloadErrorInner>)
    ensures
        final_len == total_size ==> r is Ok,
        final_len != total_size ==> r matches Err(DownloadErrorInner::CorruptDownload),
{
    if final_len != total_size {
        Err(DownloadErrorInner::CorruptDownload)
    } else {
        Ok(())
    }
}

/// What is planned for each file: it is skipped exactly when it holds the
/// expected number of bytes; a file shorter than expected is continued from
/// its end with the bytes it lacks; a missing file is fetched whole; and a
/// file longer than expected, or a missing empty one, gets nothing fetched.
pub proof fn lemma_plan_resume_cases(existing_len: Option<u64>, total_size: u64)
    ensures
        (spec_plan_resume(existing_len, total_size) == ResumePlan::AlreadyComplete) <==> existing_len == Some(total_size),
        existing_len is Some && existing_len->0 < total_size ==>
            spec_plan_resume(existing_len, total_size) == (ResumePlan::Fetch {
                start: existing_len->0,
                length: (total_size - existing_len->0) as u64,
            }),
        existing_len is Some && existing_len->0 > total_size ==>
            spec_plan_resume(existing_len, total_size) == (ResumePlan::NothingToFetch { start: existing_len->0 }),
        existing_len is None && total_size > 0 ==>
            spec_plan_resume(existing_len, total_size) == (ResumePlan::Fetch { start: 0, length: total_size }),
        existing_len is None && total_size == 0 ==>
            spec_plan_resume(existing_len, total_size) == (ResumePlan::NothingToFetch { start: 0 }),
{
}

/// A fetch resumes exactly where the file ends and stops exactly at the
/// expected size; a file that got all its bytes passes the size check, and
/// planning it again skips it, so repeating a download is harmless.
pub proof fn lemma_resume_is_idempotent(existing_len: Option<u64>, total_size: u64)
    ensures
        spec_plan_resume(Some(total_size), total_size) == ResumePlan::AlreadyComplete,
        spec_plan_resume(existing_len, total_size) matches ResumePlan::Fetch { start, length } ==> {
            &&& start + length == total_size
            &&& (existing_len matches Some(len) ==> start == len)
            &&& (existing_len is None ==> start == 0)
        },
        spec_plan_resume(existing_len, total_size) matches ResumePlan::NothingToFetch { start } ==>
            total_size <= start && existing_len != Some(total_size),
{
}

/// A batch run again: every file that already holds its expected size is
/// skipped, so nothing is fetched for it; and every fetch that a run carries
/// out leaves its file at the expected size, which passes the size check and
/// is skipped by the next run.
pub proof fn lemma_rerun_of_batch(existing: Seq<Option<u64>>, totals: Seq<u64>)
    requires
        existing.len() == totals.len(),
    ensures
        forall|i: int| 0 <= i < existing.len() && existing[i] == Some(totals[i]) ==>
            #[trigger] spec_plan_resume(existing[i], totals[i]) == ResumePlan::AlreadyComplete,
        forall|i: int| 0 <= i < existing.len() ==> match #[trigger] spec_plan_resume(existing[i], totals[i]) {
            ResumePlan::Fetch { start, length } => start + length == totals[i]
                && spec_plan_resume(Some((start + length) as u64), totals[i]) == ResumePlan::AlreadyComplete,
            _ => true,
        },
{
}

/// The outcome of asking IPFS for the size of the file with `cid`, before
/// any download of the batch starts: a failed request stops the whole batch,
/// reported as that one failed download.
pub fn stat_outcome<T>(cid: &str, stat: Result<T, ipfs_api::Error>) -> (r: Result<T, DownloadCoversError>)
    ensures
        match stat {
            Ok(v) => r == Ok::<T, DownloadCoversError>(v),
            Err(e) => r matches Err(DownloadCoversError::DownloadErrors(errors))
                && errors@.len() == 1
                && errors@[0].cid@ == cid@
                && errors@[0].error == DownloadErrorInner::IpfsError(e),
        },
{
    match stat {
        Ok(v) => Ok(v),
        Err(e) => Err(DownloadCoversError::from(DownloadError::from(cid, e))),
    }
}

/// The failed downloads among `results`, in order, each with its cid.
pub open spec fn spec_failures(results: Seq<(String, Result<(), DownloadErrorInner>)>) -> Seq<DownloadError>
    decreases results.len(),
{
    if results.len() == 0 {
        Seq::empty()
    } else {
        let rest = spec_failures(results.drop_last());
        match results.last().1 {
            Err(e) => rest.push(DownloadError { cid: results.last().0, error: e }),
            Ok(_) => rest,
        }
    }
}

/// The failed downloads of a batch are the failed results, in their order,
/// each reported with its cid and its error.
pub proof fn lemma_failures_are_the_failed_results(results: Seq<(String, Result<(), DownloadErrorInner>)>)
    ensures
        spec_failures(results) == results.filter(|r: (String, Result<(), DownloadErrorInner>)| r.1 is Err).map_values(
            |r: (String, Result<(), DownloadErrorInner>)| DownloadError { cid: r.0, error: r.1->Err_0 }),
    decreases results.len(),
{
    reveal_with_fuel(Seq::filter, 1);
    if results.len() > 0 {
        lemma_failures_are_the_failed_results(results.drop_last());
        let pred = |r: (String, Result<(), DownloadErrorInner>)| r.1 is Err;
        let f = |r: (String, Result<(), DownloadErrorInner>)| DownloadError { cid: r.0, error: r.1->Err_0 };
        let before = results.drop_last().filter(pred);
        if results.last().1 is Err {
            assert(results.filter(pred) == before.push(results.last()));
            assert(results.filter(pred).map_values(f) =~= before.map_values(f).push(f(results.last())));
        } else {
            assert(results.filter(pred) == before);
        }
    } else {
        assert(results.filter(|r: (String, Result<(), DownloadErrorInner>)| r.1 is Err) =~= Seq::empty());
    }
}

/// No download among `results` failed.
pub open spec fn all_succeeded(results: Seq<(String, Result<(), DownloadErrorInner>)>) -> bool {
    forall|i: int| 0 <= i < results.len() ==> (#[trigger] results[i]).1 is Ok
}

proof fn lemma_no_failures(results: Seq<(String, Result<(), DownloadErrorInner>)>)
    ensures
        all_succeeded(results) <==> spec_failures(results).len() == 0,
    decreases results.len(),
{
    if results.len() > 0 {
        let init = results.drop_last();
        let last = results.len() - 1;
        lemma_no_failures(init);
        assert(results.last() == results[last]);
        if all_succeeded(results) {
            assert forall|i: int| 0 <= i < init.len() implies (#[trigger] init[i]).1 is Ok by {
                assert(results[i] == init[i]);
            }
            assert(results[last].1 is Ok);
        } else {
            let i = choose|i: int| 0 <= i < results.len() && !((#[trigger] results[i]).1 is Ok);
            if i < last {
                assert(init[i] == results[i]);
                assert(!all_succeeded(init));
            }
        }
    }
}

/// Gathers the outcome of a batch of downloads, each given with its cid: the
/// files when every download succeeded, else every failure, in order.
pub fn finish_downloads<T>(files: Vec<T>, results: Vec<(String, Result<(), DownloadErrorInner>)>) -> (r: Result<Vec<T>, DownloadCoversError>)
    ensures
        all_succeeded(results@) ==> r == Ok::<Vec<T>, DownloadCoversError>(files),
        !all_succeeded(results@) ==> (r matches Err(DownloadCoversError::DownloadErrors(errors)) && errors@ == spec_failures(results@)),
{
    let ghost all = results@;
    let mut errors: Vec<DownloadError> = Vec::new();
    let mut rest = results;
    // Walk the results from the front by reversing them once.
    let mut reversed: Vec<(String, Result<(), DownloadErrorInner>)> = Vec::new();
    while rest.len() > 0
        invariant
            reversed@.len() + rest@.len() == all.len(),
            rest@ == all.take(rest@.len() as int),
            forall|k: int| 0 <= k < reversed@.len() ==> #[trigger] reversed@[k] == all[all.len() - 1 - k],
        decreases rest@.len(),
    {
        let item = rest.pop().unwrap();
        reversed.push(item);
        assert(rest@ =~= all.take(rest@.len() as int));
    }
    let ghost mut done: Seq<(String, Result<(), DownloadErrorInner>)> = Seq::empty();
    assert(done =~= all.take(0));
    while reversed.len() > 0
        invariant
            reversed@.len() + done.len() == all.len(),
            done == all.take(done.len() as int),
            forall|k: int| 0 <= k < reversed@.len() ==> #[trigger] reversed@[k] == all[all.len() - 1 - k],
            errors@ == spec_failures(done),
        decreases reversed@.len(),
    {
        let ghost before = done;
        let (cid, outcome) = reversed.pop().unwrap();
        proof {
            done = before.push((cid, outcome));
            assert(done.drop_last() =~= before);
            assert(done =~= all.take(done.len() as int));
        }
        match outcome {
            Err(error) => {
                errors.push(DownloadError { cid: cid, error: error });
            },
            Ok(()) => {},
        }
    }
    assert(done =~= all);
    proof { lemma_no_failures(all); }
    if errors.len() == 0 {
        Ok(files)
    } else {
        Err(DownloadCoversError::DownloadErrors(errors))
    }
}

} // verus!
