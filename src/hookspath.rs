//! Where the script of a hook lives, and how it is started.

use vstd::prelude::*;

use crate::error::HooksError;
use crate::paths::{join_path, path_join, trim_end_separators, trim_trailing_separators};

verus! {

/// The configuration key that overrides where hooks are looked up.
pub const CONFIG_HOOKS_PATH: &'static str = "core.hooksPath";

/// The hooks directory inside the repository's git directory.
pub const DEFAULT_HOOKS_PATH: &'static str = "hooks";

/// Relies on `shellexpand::full`: expands `~` and `$VAR` against the home
/// directory and the environment, failing with the name of a variable that
/// cannot be read. The result depends on the environment, so little is said of
/// it: a text without `$` cannot fail, and one without `$` that does not begin
/// with `~` comes back as it is.
#[verifier::external_body]
fn expand_full(s: &str) -> (r: Result<String, String>)
    ensures
        r is Err ==> s@.contains('$'),
        !s@.contains('$') && !(s@.len() > 0 && s@[0] == '~') ==> r->Ok_0@ == s@,
{
    match shellexpand::full(s) {
        Ok(e) => Ok(e.into_owned()),
        Err(e) => Err(e.var_name),
    }
}

/// The views of the directories given besides the default one.
pub open spec fn other_dirs(other_paths: Option<&[&str]>) -> Seq<Seq<char>> {
    match other_paths {
        Some(o) => o@.map_values(|p: &str| p@),
        None => Seq::empty(),
    }
}

/// The directories searched for a hook, in order: the default one, then
/// each other one without its trailing separators.
pub open spec fn search_dirs(other_paths: Option<&[&str]>) -> Seq<Seq<char>> {
    seq![DEFAULT_HOOKS_PATH@] + other_dirs(other_paths).map_values(
        |p: Seq<char>| trim_trailing_separators(p),
    )
}

/// The paths at which the hook `hook` is looked for under the git directory `git`.
pub open spec fn candidate_paths(git: Seq<char>, other_paths: Option<&[&str]>, hook: Seq<char>) -> Seq<
    Seq<char>,
> {
    search_dirs(other_paths).map_values(|d: Seq<char>| path_join(path_join(git, d), hook))
}

/// Index `i` is the first one that `existing` marks as existing.
pub open spec fn first_existing_at(existing: Seq<bool>, n: nat, i: int) -> bool {
    &&& 0 <= i < n
    &&& i < existing.len()
    &&& existing[i]
    &&& forall|j: int| 0 <= j < i ==> !(#[trigger] existing[j])
}

/// The first candidate that exists, or else the first candidate.
pub open spec fn select_candidate(cands: Seq<Seq<char>>, existing: Seq<bool>) -> Seq<char> {
    if exists|i: int| first_existing_at(existing, cands.len(), i) {
        cands[choose|i: int| first_existing_at(existing, cands.len(), i)]
    } else {
        cands[0]
    }
}

/// The hooks directory that the configuration names, when it names one.
pub open spec fn configured_dir(config_hooks_path: Option<&str>) -> Option<Seq<char>> {
    match config_hooks_path {
        Some(c) if c@.len() > 0 => Some(c@),
        _ => None,
    }
}

/// The script that resolution names, before expansion: the configured
/// directory joined with `hook` when there is one, else the search's pick.
pub open spec fn resolved_hook(
    git: Seq<char>,
    config_hooks_path: Option<&str>,
    other_paths: Option<&[&str]>,
    hook: Seq<char>,
    existing: Seq<bool>,
) -> Seq<char> {
    match configured_dir(config_hooks_path) {
        Some(c) => path_join(c, hook),
        None => select_candidate(candidate_paths(git, other_paths, hook), existing),
    }
}

/// A text that path expansion passes through unchanged.
pub open spec fn expands_to_itself(s: Seq<char>) -> bool {
    !s.contains('$') && !(s.len() > 0 && s[0] == '~')
}

/// A hook file is there and can be executed.
pub open spec fn hook_found(mode: Option<u32>) -> bool {
    mode matches Some(m) && mode_executable(m)
}

/// Permission bits with some execute bit set.
pub open spec fn mode_executable(mode: u32) -> bool {
    mode & 0o111u32 != 0
}

/// Whether a file with permission bits `mode` can be executed.
pub fn is_executable(mode: u32) -> (r: bool)
    ensures
        r == mode_executable(mode),
{
    mode & 0o111u32 != 0
}

/// How `Path`'s `Debug` writes the path `p`: quoted, with special characters escaped.
pub uninterp spec fn path_debug(p: Seq<char>) -> Seq<char>;

/// Relies on the `Debug` impl of `std::path::Path`: the text depends on the path alone.
#[verifier::external_body]
fn quote_path(p: &str) -> (r: String)
    ensures
        r@ == path_debug(p@),
{
    format!("{:?}", std::path::Path::new(p))
}

/// The words of `args` with a space between each two.
pub open spec fn join_words(args: Seq<Seq<char>>) -> Seq<char>
    decreases args.len(),
{
    if args.len() == 0 {
        Seq::empty()
    } else if args.len() == 1 {
        args[0]
    } else {
        join_words(args.drop_last()) + seq![' '] + args.last()
    }
}

/// The command line that a shell runs for the hook at `hook` with `args`.
pub open spec fn hook_command_line(hook: Seq<char>, args: Seq<Seq<char>>) -> Seq<char> {
    path_debug(hook) + seq![' '] + join_words(args)
}

/// The views of a slice of strings.
pub open spec fn str_views(args: &[&str]) -> Seq<Seq<char>> {
    args@.map_values(|a: &str| a@)
}

/// The shell that runs hooks: the one found beside git, else the user's own,
/// else `bash` looked up by name.
pub open spec fn chosen_shell(git_bash: Option<Seq<char>>, user_shell: Option<Seq<char>>) -> Seq<char> {
    match git_bash {
        Some(b) => b,
        None => match user_shell {
            Some(s) => s,
            None => seq!['b', 'a', 's', 'h'],
        },
    }
}

/// Joins `args` with single spaces.
pub fn join_with_spaces(args: &[&str]) -> (r: String)
    ensures
        r@ == join_words(str_views(args)),
{
    let ghost words = str_views(args);
    let mut r = String::new();
    let mut i: usize = 0;
    proof {
        reveal_strlit(" ");
    }
    while i < args.len()
        invariant
            i <= args@.len(),
            words == str_views(args),
            r@ == join_words(words.subrange(0, i as int)),
        decreases args@.len() - i,
    {
        assert(words.subrange(0, i + 1).drop_last() =~= words.subrange(0, i as int));
        assert(words[i as int] == args@[i as int]@);
        assert(words.subrange(0, i + 1).last() == words[i as int]);
        proof {
            reveal_strlit(" ");
        }
        if i > 0 {
            r.append(" ");
            r.append(args[i]);
        } else {
            r.append(args[i]);
            assert(r@ =~= words[0]);
        }
        i = i + 1;
    }
    assert(words.subrange(0, i as int) =~= words);
    r
}

/// What starts a hook: a program, its arguments, and the directory it runs in.
#[derive(Debug, Clone, PartialEq, Eq)]
pub struct HookCommand {
    pub program: String,
    pub args: Vec<String>,
    pub dir: String,
}

/// The places of one hook: the repository's git directory, the hook's script,
/// and the directory it runs in.
#[derive(Debug, Clone, PartialEq, Eq)]
pub struct HookPaths {
    pub git: String,
    pub hook: String,
    pub pwd: String,
}

impl HookPaths {
    /// Resolves the hook `hook` of the repository whose git directory is `git`
    /// and whose working tree is `workdir`, if it has one; the hook then runs in
    /// the working tree, or else in the git directory.
    ///
    /// A non-empty `config_hooks_path` takes precedence: the hook is that
    /// directory joined with `hook`, with `~` and `$VAR` expanded, whether or not
    /// a file is there. Otherwise the hook is found by `find_hook` among the
    /// candidates that `existing` marks, in the order of `hook_candidates`.
    pub fn new(
        git: &str,
        workdir: Option<&str>,
        config_hooks_path: Option<&str>,
        other_paths: Option<&[&str]>,
        hook: &str,
        existing: &[bool],
    ) -> (r: Result<HookPaths, HooksError>)
        ensures
            r matches Ok(p) ==> p.git@ == git@ && p.pwd@ == (match workdir {
                Some(w) => w@,
                None => git@,
            }),
            configured_dir(config_hooks_path) is None || expands_to_itself(
                resolved_hook(git@, config_hooks_path, other_paths, hook@, existing@),
            ) ==> (r matches Ok(p) && p.hook@ == resolved_hook(
                git@,
                config_hooks_path,
                other_paths,
                hook@,
                existing@,
            )),
            r is Err ==> configured_dir(config_hooks_path) is Some && resolved_hook(
                git@,
                config_hooks_path,
                other_paths,
                hook@,
                existing@,
            ).contains('$'),
    {
        let pwd = match workdir {
            Some(w) => w.to_owned(),
            None => git.to_owned(),
        };
        let configured = match config_hooks_path {
            Some(c) => c.unicode_len() > 0,
            None => false,
        };
        if configured {
            let c = config_hooks_path.unwrap();
            let joined = join_path(c, hook);
            match expand_full(joined.as_str()) {
                Ok(expanded) => Ok(HookPaths { git: git.to_owned(), hook: expanded, pwd }),
                Err(var_name) => Err(HooksError::ShellExpand { var_name }),
            }
        } else {
            let found = HookPaths::find_hook(git, other_paths, hook, existing);
            Ok(HookPaths { git: git.to_owned(), hook: found, pwd })
        }
    }

    /// Whether a hook file was found and can be executed, where `mode` holds the
    /// permission bits of the file at `self.hook`, or nothing when no file is there.
    pub fn found(&self, mode: Option<u32>) -> (r: bool)
        ensures
            r == hook_found(mode),
    {
        match mode {
            Some(m) => is_executable(m),
            None => false,
        }
    }

    /// The command that runs this hook with `args`: a login shell told to run
    /// the quoted hook path followed by the arguments, in `self.pwd`. The shell
    /// is `git_bash`, else `user_shell`, else `bash`.
    pub fn hook_command(&self, args: &[&str], git_bash: Option<String>, user_shell: Option<String>) -> (r: HookCommand)
        ensures
            r.program@ == chosen_shell(
                match git_bash {
                    Some(b) => Some(b@),
                    None => None,
                },
                match user_shell {
                    Some(s) => Some(s@),
                    None => None,
                },
            ),
            r.args@.map_values(|a: String| a@) == seq![
                seq!['-', 'l'],
                seq!['-', 'c'],
                hook_command_line(self.hook@, str_views(args)),
            ],
            r.dir == self.pwd,
    {
        let mut line = quote_path(self.hook.as_str());
        line.append(" ");
        let joined = join_with_spaces(args);
        line.append(joined.as_str());
        let program = match git_bash {
            Some(b) => b,
            None => match user_shell {
                Some(s) => s,
                None => String::from_str("bash"),
            },
        };
        let mut shell_args: Vec<String> = Vec::new();
        shell_args.push(String::from_str("-l"));
        shell_args.push(String::from_str("-c"));
        shell_args.push(line);
        proof {
            reveal_strlit(" ");
            reveal_strlit("bash");
            reveal_strlit("-l");
            reveal_strlit("-c");
        }
        assert(shell_args@[0]@ =~= seq!['-', 'l']);
        assert(shell_args@[1]@ =~= seq!['-', 'c']);
        assert(line@ =~= hook_command_line(self.hook@, str_views(args)));
        assert(shell_args@.map_values(|a: String| a@) =~= seq![
            seq!['-', 'l'],
            seq!['-', 'c'],
            hook_command_line(self.hook@, str_views(args)),
        ]);
        HookCommand { program, args: shell_args, dir: self.pwd.clone() }
    }

    /// The paths at which the hook `hook` is looked for, in the order of the search.
    pub fn hook_candidates(git: &str, other_paths: Option<&[&str]>, hook: &str) -> (r: Vec<String>)
        ensures
            r@.map_values(|s: String| s@) == candidate_paths(git@, other_paths, hook@),
            r@.len() >= 1,
    {
        let ghost cands = candidate_paths(git@, other_paths, hook@);
        let mut r: Vec<String> = Vec::new();
        let base = join_path(git, DEFAULT_HOOKS_PATH);
        r.push(join_path(base.as_str(), hook));
        match other_paths {
            Some(o) => {
                let n = o.len();
                let mut i: usize = 0;
                while i < n
                    invariant
                        other_paths == Some(o),
                        n == o@.len(),
                        i <= n,
                        cands == candidate_paths(git@, other_paths, hook@),
                        r@.len() == i + 1,
                        forall|k: int| 0 <= k < r@.len() ==> #[trigger] r@[k]@ == cands[k],
                    decreases n - i,
                {
                    let dir = trim_end_separators(o[i]);
                    let base = join_path(git, dir.as_str());
                    r.push(join_path(base.as_str(), hook));
                    i = i + 1;
                }
            },
            None => {},
        }
        assert(r@.map_values(|s: String| s@) =~= cands);
        r
    }

    /// The first of `candidates` that `existing` marks as existing, or else
    /// the first of them. A candidate past the end of `existing` does not exist.
    pub fn select_existing(candidates: &Vec<String>, existing: &[bool]) -> (r: String)
        requires
            candidates@.len() > 0,
        ensures
            r@ == select_candidate(candidates@.map_values(|s: String| s@), existing@),
    {
        let ghost cands = candidates@.map_values(|s: String| s@);
        let mut i: usize = 0;
        while i < candidates.len()
            invariant
                i <= candidates@.len(),
                cands == candidates@.map_values(|s: String| s@),
                forall|j: int| 0 <= j < i ==> !(j < existing@.len() && #[trigger] existing@[j]),
            decreases candidates@.len() - i,
        {
            if i < existing.len() && existing[i] {
                assert(first_existing_at(existing@, cands.len(), i as int));
                let ghost c = choose|k: int| first_existing_at(existing@, cands.len(), k);
                assert(c == i) by {
                    if c < i {
                        assert(!(c < existing@.len() && existing@[c]));
                    }
                    if c > i {
                        assert(!existing@[i as int]);
                    }
                }
                return candidates[i].clone();
            }
            i = i + 1;
        }
        assert(!exists|k: int| first_existing_at(existing@, cands.len(), k));
        candidates[0].clone()
    }

    /// The script of `hook` when no hooks path is configured: the first of its
    /// candidate paths that `existing` marks as existing, or else the one in the
    /// default directory. `existing` follows the order of `hook_candidates`.
    pub fn find_hook(git: &str, other_paths: Option<&[&str]>, hook: &str, existing: &[bool]) -> (r: String)
        ensures
            r@ == select_candidate(candidate_paths(git@, other_paths, hook@), existing@),
    {
        let cands = HookPaths::hook_candidates(git, other_paths, hook);
        HookPaths::select_existing(&cands, existing)
    }
}

} // verus!
