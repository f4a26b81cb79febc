//! The order of a clone run. Each stage is outside work (a file-system
//! check, a subprocess, a request); the caller performs it, reports whether
//! it succeeded, and is told which stage comes next.
use vstd::prelude::*;
use crate::json::parsed_json;
use crate::source::{SourceFile, api_failure, files_view, response_files, sources_from_response};
use crate::text::{chars_of, contains, find_text};

verus! {

/// A stage of a clone run.
#[derive(Debug, Clone, Copy, PartialEq, Eq, Structural)]
pub enum Stage {
    /// Resolve the chain alias and read its explorer's API key.
    ResolveChain,
    /// Check that the target path does not exist yet.
    CheckPath,
    /// Create the target directory.
    CreateDir,
    /// Run the project-initialization command in it.
    InitProject,
    /// Delete the placeholder files that the command generated.
    RemovePlaceholders,
    /// Request the contract's source from the explorer.
    Fetch,
    /// Write the decoded source files.
    WriteFiles,
    /// The run is complete.
    Finished,
    /// The run stopped on a fatal error.
    Failed,
}

/// The stage after `s`, given whether its work succeeded. A failure at any
/// stage ends the run; the two end stages stay as they are.
pub open spec fn next_stage(s: Stage, ok: bool) -> Stage {
    match s {
        Stage::Finished => Stage::Finished,
        Stage::Failed => Stage::Failed,
        _ => if !ok {
            Stage::Failed
        } else {
            match s {
                Stage::ResolveChain => Stage::CheckPath,
                Stage::CheckPath => Stage::CreateDir,
                Stage::CreateDir => Stage::InitProject,
                Stage::InitProject => Stage::RemovePlaceholders,
                Stage::RemovePlaceholders => Stage::Fetch,
                Stage::Fetch => Stage::WriteFiles,
                _ => Stage::Finished,
            }
        },
    }
}

/// The stage reached from `s` after the outcomes `oks`, one per stage run.
pub open spec fn stage_after(s: Stage, oks: Seq<bool>) -> Stage
    decreases oks.len(),
{
    if oks.len() == 0 {
        s
    } else {
        stage_after(next_stage(s, oks[0]), oks.drop_first())
    }
}

/// The stage that follows `s`; `ok` tells whether the work of `s`
/// succeeded (for `CheckPath`: whether the target path is free).
pub fn advance(s: Stage, ok: bool) -> (r: Stage)
    ensures
        r == next_stage(s, ok),
{
    match s {
        Stage::Finished => Stage::Finished,
        Stage::Failed => Stage::Failed,
        _ => if !ok {
            Stage::Failed
        } else {
            match s {
                Stage::ResolveChain => Stage::CheckPath,
                Stage::CheckPath => Stage::CreateDir,
                Stage::CreateDir => Stage::InitProject,
                Stage::InitProject => Stage::RemovePlaceholders,
                Stage::RemovePlaceholders => Stage::Fetch,
                Stage::Fetch => Stage::WriteFiles,
                _ => Stage::Finished,
            }
        },
    }
}

/// Ends the `Fetch` stage with the answer body of a completed request: the
/// run goes on to `WriteFiles` with the decoded files exactly when the body
/// yields some, and fails with no files otherwise.
pub fn after_fetch(body: &str) -> (r: (Stage, Vec<SourceFile>))
    ensures
        r.0 == next_stage(Stage::Fetch, response_files(body@).is_some()),
        match response_files(body@) {
            Some(files) => files_view(r.1@) == files,
            None => r.1@.len() == 0,
        },
{
    match sources_from_response(body) {
        Ok(files) => (advance(Stage::Fetch, true), files),
        Err(_) => (advance(Stage::Fetch, false), Vec::new()),
    }
}

/// A generated file is a placeholder when its path holds `Counter`.
pub open spec fn is_placeholder_path(path: Seq<char>) -> bool {
    contains(path, "Counter"@)
}

/// Whether the project-initialization command's file at `path` is a
/// placeholder to delete.
pub fn is_placeholder(path: &str) -> (r: bool)
    ensures
        r == is_placeholder_path(path@),
{
    let p = chars_of(path);
    let needle = chars_of("Counter");
    find_text(&p, &needle)
}

/// A run that has failed stays failed, whatever is reported after.
pub proof fn lemma_failed_is_final(oks: Seq<bool>)
    ensures
        stage_after(Stage::Failed, oks) == Stage::Failed,
    decreases oks.len(),
{
    if oks.len() > 0 {
        lemma_failed_is_final(oks.drop_first());
    }
}

/// A failure at any stage that is not an end stage fails the run at once:
/// after every number of reported outcomes it stands failed, so no later
/// stage is ever reached.
pub proof fn lemma_failure_ends_run(s: Stage, oks: Seq<bool>)
    requires
        s != Stage::Finished,
        s != Stage::Failed,
        oks.len() >= 1,
        !oks[0],
    ensures
        forall|k: int| 1 <= k <= oks.len() ==> #[trigger] stage_after(s, oks.subrange(0, k)) == Stage::Failed,
{
    assert forall|k: int| 1 <= k <= oks.len() implies #[trigger] stage_after(s, oks.subrange(0, k)) == Stage::Failed by {
        let pre = oks.subrange(0, k);
        assert(pre[0] == oks[0]);
        lemma_failed_is_final(pre.drop_first());
    }
}

/// An unsupported chain alias (or a missing API key) stops the run before
/// the target path is looked at: no directory is created and no request is
/// made.
pub proof fn lemma_unknown_chain_stops_run(oks: Seq<bool>)
    requires
        oks.len() >= 1,
        !oks[0],
    ensures
        forall|k: int| 1 <= k <= oks.len() ==> #[trigger] stage_after(Stage::ResolveChain, oks.subrange(0, k)) == Stage::Failed,
{
    lemma_failure_ends_run(Stage::ResolveChain, oks);
}

/// When the target path already exists, the run fails at once: after every
/// number of reported outcomes it stands failed, so it never reaches
/// `CreateDir` or `Fetch`.
pub proof fn lemma_existing_path_stops_run(oks: Seq<bool>)
    requires
        oks.len() >= 1,
        !oks[0],
    ensures
        forall|k: int| 1 <= k <= oks.len() ==> #[trigger] stage_after(Stage::CheckPath, oks.subrange(0, k)) == Stage::Failed,
{
    lemma_failure_ends_run(Stage::CheckPath, oks);
}

/// An answer body that yields no files (not JSON, a status other than "1",
/// no source, an empty or malformed source) ends the run at `Fetch`: it
/// never reaches `WriteFiles`.
pub proof fn lemma_bad_answer_writes_nothing(body: Seq<char>, oks: Seq<bool>)
    requires
        response_files(body).is_none(),
    ensures
        stage_after(next_stage(Stage::Fetch, response_files(body).is_some()), oks) == Stage::Failed,
{
    lemma_failed_is_final(oks);
}

/// An answer whose `status` is a string other than "1" yields no files, and
/// the run that receives it fails without writing any.
pub proof fn lemma_failed_status_writes_nothing(body: Seq<char>, oks: Seq<bool>)
    requires
        parsed_json(body) is Ok,
        api_failure(parsed_json(body)->Ok_0) is Some,
    ensures
        response_files(body).is_none(),
        stage_after(next_stage(Stage::Fetch, response_files(body).is_some()), oks) == Stage::Failed,
{
    lemma_bad_answer_writes_nothing(body, oks);
}

} // verus!
