//! The hook events of a commit, and what their hooks are handed.

use vstd::prelude::*;

use crate::outcome::HookOutcome;
use crate::paths::{join_path, path_join};

verus! {

/// The hook run after a commit was made.
pub const HOOK_POST_COMMIT: &'static str = "post-commit";

/// The hook run before a commit is made; it may reject it.
pub const HOOK_PRE_COMMIT: &'static str = "pre-commit";

/// The hook that checks, and may edit, a commit message.
pub const HOOK_COMMIT_MSG: &'static str = "commit-msg";

/// The hook that prepares a commit message before it is edited.
pub const HOOK_PREPARE_COMMIT_MSG: &'static str = "prepare-commit-msg";

/// The file in the git directory through which a message goes to a hook and back.
pub const HOOK_COMMIT_MSG_TEMP_FILE: &'static str = "COMMIT_EDITMSG";

/// Where the message of a commit being prepared comes from.
#[derive(Debug, Clone, PartialEq, Eq)]
pub enum PrepareCommitMsgSource {
    /// A message given on the command line or by the caller.
    Message,
    /// A template file.
    Template,
    /// A merge.
    Merge,
    /// A squash.
    Squash,
    /// An existing commit, by its id in hex.
    Commit(String),
}

/// The word that names a message source to the hook.
pub open spec fn source_word(source: PrepareCommitMsgSource) -> Seq<char> {
    match source {
        PrepareCommitMsgSource::Message => seq!['m', 'e', 's', 's', 'a', 'g', 'e'],
        PrepareCommitMsgSource::Template => seq!['t', 'e', 'm', 'p', 'l', 'a', 't', 'e'],
        PrepareCommitMsgSource::Merge => seq!['m', 'e', 'r', 'g', 'e'],
        PrepareCommitMsgSource::Squash => seq!['s', 'q', 'u', 'a', 's', 'h'],
        PrepareCommitMsgSource::Commit(_) => seq!['c', 'o', 'm', 'm', 'i', 't'],
    }
}

/// The arguments of the message-preparing hook: the message file, the
/// source's word, and for a commit its id.
pub open spec fn prepare_args(msg_file: Seq<char>, source: PrepareCommitMsgSource) -> Seq<Seq<char>> {
    match source {
        PrepareCommitMsgSource::Commit(id) => seq![msg_file, source_word(source), id@],
        _ => seq![msg_file, source_word(source)],
    }
}

/// The path of the message file of the repository whose git directory is `git`.
pub fn message_file(git: &str) -> (r: String)
    ensures
        r@ == path_join(git@, HOOK_COMMIT_MSG_TEMP_FILE@),
{
    join_path(git, HOOK_COMMIT_MSG_TEMP_FILE)
}

/// The arguments handed to the message-preparing hook.
pub fn prepare_commit_msg_args(msg_file: &str, source: &PrepareCommitMsgSource) -> (r: Vec<String>)
    ensures
        r@.map_values(|a: String| a@) == prepare_args(msg_file@, *source),
{
    proof {
        reveal_strlit("message");
        reveal_strlit("template");
        reveal_strlit("merge");
        reveal_strlit("squash");
        reveal_strlit("commit");
    }
    let word = match source {
        PrepareCommitMsgSource::Message => String::from_str("message"),
        PrepareCommitMsgSource::Template => String::from_str("template"),
        PrepareCommitMsgSource::Merge => String::from_str("merge"),
        PrepareCommitMsgSource::Squash => String::from_str("squash"),
        PrepareCommitMsgSource::Commit(_) => String::from_str("commit"),
    };
    assert(word@ =~= source_word(*source));
    let mut r: Vec<String> = Vec::new();
    r.push(msg_file.to_owned());
    r.push(word);
    match source {
        PrepareCommitMsgSource::Commit(id) => r.push(id.clone()),
        _ => {},
    }
    assert(r@.map_values(|a: String| a@) =~= prepare_args(msg_file@, *source));
    r
}

/// After a message-bearing hook has run: unless it timed out, the message
/// becomes what the hook left in the message file, `edited`, when that could
/// be read; otherwise the message stays as it was.
pub fn apply_message_edit(msg: &mut String, outcome: &HookOutcome, edited: Option<String>)
    ensures
        *final(msg) == match edited {
            Some(e) if !(outcome is TimedOut) => e,
            _ => *old(msg),
        },
{
    match outcome {
        HookOutcome::TimedOut { .. } => {},
        _ => match edited {
            Some(e) => {
                *msg = e;
            },
            None => {},
        },
    }
}

} // verus!
