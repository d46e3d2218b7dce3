//! Path resolver: placeholder expansion and path arithmetic on plain
//! strings.
//!
//! Configured source/target paths may embed Windows-style environment
//! placeholders (`%USERPROFILE%` and friends). Expansion substitutes the
//! values from an [`EnvVars`] snapshot; reading the live environment is the
//! caller's concern, which keeps expansion a pure, deterministic function.
//! The other helpers (file name, parent directory, join, absolute test) are
//! the path arithmetic the backup and deployment engines build on.

use crate::text::{match_at, occurs, replace_all, spec_replace, lemma_replace_no_occurrence};
use vstd::prelude::*;

verus! {

/// A snapshot of the environment values the resolver substitutes. A
/// variable that is unset in the environment is carried as the empty
/// string, so its placeholder expands to nothing (an empty substitution,
/// not an error).
pub struct EnvVars {
    pub userprofile: String,
    pub appdata: String,
    pub local_appdata: String,
    pub program_files: String,
    pub program_files_x86: String,
}

impl EnvVars {
    /// A snapshot with every variable unset.
    pub fn empty() -> (r: EnvVars)
        ensures
            r.userprofile@ == Seq::<char>::empty(),
            r.appdata@ == Seq::<char>::empty(),
            r.local_appdata@ == Seq::<char>::empty(),
            r.program_files@ == Seq::<char>::empty(),
            r.program_files_x86@ == Seq::<char>::empty(),
    {
        EnvVars {
            userprofile: String::new(),
            appdata: String::new(),
            local_appdata: String::new(),
            program_files: String::new(),
            program_files_x86: String::new(),
        }
    }
}

/// The result of expanding the recognized placeholders in order, each one
/// replaced everywhere it occurs by the snapshot's value.
pub open spec fn spec_expand(s: Seq<char>, env: EnvVars) -> Seq<char> {
    let s1 = spec_replace(s, "%USERPROFILE%"@, env.userprofile@);
    let s2 = spec_replace(s1, "%APPDATA%"@, env.appdata@);
    let s3 = spec_replace(s2, "%LOCALAPPDATA%"@, env.local_appdata@);
    let s4 = spec_replace(s3, "%PROGRAMFILES%"@, env.program_files@);
    spec_replace(s4, "%PROGRAMFILES(X86)%"@, env.program_files_x86@)
}

/// Some recognized placeholder occurs in `s`.
pub open spec fn has_placeholder(s: Seq<char>) -> bool {
    ||| occurs(s, "%USERPROFILE%"@)
    ||| occurs(s, "%APPDATA%"@)
    ||| occurs(s, "%LOCALAPPDATA%"@)
    ||| occurs(s, "%PROGRAMFILES%"@)
    ||| occurs(s, "%PROGRAMFILES(X86)%"@)
}

/// Law: expansion is the identity on paths without any recognized
/// placeholder, whatever the environment holds.
pub proof fn lemma_expand_no_placeholders(s: Seq<char>, env: EnvVars)
    requires
        !has_placeholder(s),
    ensures
        spec_expand(s, env) == s,
{
    reveal_strlit("%USERPROFILE%");
    reveal_strlit("%APPDATA%");
    reveal_strlit("%LOCALAPPDATA%");
    reveal_strlit("%PROGRAMFILES%");
    reveal_strlit("%PROGRAMFILES(X86)%");
    lemma_replace_no_occurrence(s, "%USERPROFILE%"@, env.userprofile@);
    lemma_replace_no_occurrence(s, "%APPDATA%"@, env.appdata@);
    lemma_replace_no_occurrence(s, "%LOCALAPPDATA%"@, env.local_appdata@);
    lemma_replace_no_occurrence(s, "%PROGRAMFILES%"@, env.program_files@);
    lemma_replace_no_occurrence(s, "%PROGRAMFILES(X86)%"@, env.program_files_x86@);
}

/// Expands the recognized environment placeholders in a configured path
/// against the given snapshot. Unrecognized tokens are left verbatim.
pub fn expand_env_vars(path: &str, env: &EnvVars) -> (r: String)
    ensures
        r@ == spec_expand(path@, *env),
{
    let s1 = replace_all(path, "%USERPROFILE%", env.userprofile.as_str());
    let s2 = replace_all(s1.as_str(), "%APPDATA%", env.appdata.as_str());
    let s3 = replace_all(s2.as_str(), "%LOCALAPPDATA%", env.local_appdata.as_str());
    let s4 = replace_all(s3.as_str(), "%PROGRAMFILES%", env.program_files.as_str());
    replace_all(s4.as_str(), "%PROGRAMFILES(X86)%", env.program_files_x86.as_str())
}

/// Path separator: deployment paths may mix the two styles.
pub open spec fn is_sep(c: char) -> bool {
    c == '/' || c == '\\'
}

/// The final component of a path: everything after the last separator, the
/// whole path when it has none, and empty for a path ending in a separator.
pub open spec fn spec_file_name(s: Seq<char>) -> Seq<char>
    decreases s.len(),
{
    if s.len() == 0 {
        s
    } else if is_sep(s[s.len() - 1]) {
        Seq::empty()
    } else {
        spec_file_name(s.drop_last()).push(s[s.len() - 1])
    }
}

/// The directory part of a path: everything before the last separator.
/// Meaningful only for paths that contain a separator.
pub open spec fn spec_dir_of(s: Seq<char>) -> Seq<char>
    decreases s.len(),
{
    if s.len() == 0 {
        s
    } else if is_sep(s[s.len() - 1]) {
        s.drop_last()
    } else {
        spec_dir_of(s.drop_last())
    }
}

pub open spec fn has_sep(s: Seq<char>) -> bool {
    exists|i: int| 0 <= i < s.len() && #[trigger] is_sep(s[i])
}

/// Index just past the last separator; 0 when there is none.
fn last_sep_cut(s: &str, n: usize) -> (cut: usize)
    requires
        n == s@.len(),
    ensures
        cut <= n,
        cut == 0 ==> forall|j: int| 0 <= j < n ==> !is_sep(s@[j]),
        cut > 0 ==> is_sep(s@[cut - 1]) && forall|j: int| cut <= j < n ==> !is_sep(s@[j]),
    decreases n,
{
    let mut j = n;
    while j > 0
        invariant
            j <= n,
            n == s@.len(),
            forall|k: int| j <= k < n ==> !is_sep(s@[k]),
        decreases j,
    {
        let c = s.get_char(j - 1);
        if c == '/' || c == '\\' {
            return j;
        }
        j = j - 1;
    }
    0
}

proof fn lemma_file_name_suffix(s: Seq<char>, cut: int)
    requires
        0 <= cut <= s.len(),
        forall|j: int| cut <= j < s.len() ==> !is_sep(s[j]),
        cut == 0 || is_sep(s[cut - 1]),
    ensures
        spec_file_name(s) == s.skip(cut),
    decreases s.len(),
{
    if cut == s.len() {
        if s.len() == 0 {
            assert(s.skip(cut) =~= s);
        } else {
            assert(s.skip(cut) =~= Seq::<char>::empty());
        }
    } else {
        lemma_file_name_suffix(s.drop_last(), cut);
        assert(s.drop_last().skip(cut).push(s[s.len() - 1]) =~= s.skip(cut));
    }
}

proof fn lemma_dir_prefix(s: Seq<char>, cut: int)
    requires
        1 <= cut <= s.len(),
        is_sep(s[cut - 1]),
        forall|j: int| cut <= j < s.len() ==> !is_sep(s[j]),
    ensures
        spec_dir_of(s) == s.take(cut - 1),
    decreases s.len(),
{
    if cut == s.len() {
        assert(s.drop_last() =~= s.take(cut - 1));
    } else {
        lemma_dir_prefix(s.drop_last(), cut);
        assert(s.drop_last().take(cut - 1) =~= s.take(cut - 1));
    }
}

/// The final component of a path, as the backup manager names backups.
pub fn file_name_of(path: &str) -> (r: String)
    ensures
        r@ == spec_file_name(path@),
{
    let n = path.unicode_len();
    let cut = last_sep_cut(path, n);
    let r = path.substring_char(cut, n).to_owned();
    proof {
        lemma_file_name_suffix(path@, cut as int);
        assert(path@.subrange(cut as int, n as int) =~= path@.skip(cut as int));
    }
    r
}

/// The directory part of a path, or `None` for a bare file name.
pub fn dir_name_of(path: &str) -> (r: Option<String>)
    ensures
        r is Some <==> has_sep(path@),
        r is Some ==> r->Some_0@ == spec_dir_of(path@),
{
    let n = path.unicode_len();
    let cut = last_sep_cut(path, n);
    if cut == 0 {
        proof {
            assert(!has_sep(path@));
        }
        None
    } else {
        let r = path.substring_char(0, cut - 1).to_owned();
        proof {
            lemma_dir_prefix(path@, cut as int);
            assert(path@.subrange(0, cut - 1) =~= path@.take(cut as int - 1));
            assert(is_sep(path@[cut as int - 1]));
        }
        Some(r)
    }
}

/// Joining a directory and a name, the way the platform's path library
/// renders it: a `/` is inserted unless the directory is empty or already
/// ends in a separator.
pub open spec fn spec_join(dir: Seq<char>, name: Seq<char>) -> Seq<char> {
    if dir.len() == 0 {
        name
    } else if is_sep(dir[dir.len() - 1]) {
        dir + name
    } else {
        dir + seq!['/'] + name
    }
}

pub fn join_path(dir: &str, name: &str) -> (r: String)
    ensures
        r@ == spec_join(dir@, name@),
{
    let n = dir.unicode_len();
    if n == 0 {
        return name.to_owned();
    }
    let last = dir.get_char(n - 1);
    let mut out = dir.to_owned();
    if !(last == '/' || last == '\\') {
        out.append("/");
        proof {
            reveal_strlit("/");
            assert("/"@ =~= seq!['/']);
        }
    }
    out.append(name);
    out
}

pub open spec fn is_ascii_letter(c: char) -> bool {
    ('a' <= c && c <= 'z') || ('A' <= c && c <= 'Z')
}

/// Absolute paths, in either style the agent meets: a rooted Unix path, a
/// UNC path, or a drive-letter path such as `C:\`.
pub open spec fn spec_is_absolute(s: Seq<char>) -> bool {
    ||| (s.len() >= 1 && s[0] == '/')
    ||| (s.len() >= 2 && s[0] == '\\' && s[1] == '\\')
    ||| (s.len() >= 3 && is_ascii_letter(s[0]) && s[1] == ':' && is_sep(s[2]))
}

/// Checks whether a path is absolute.
pub fn is_absolute_path(path: &str) -> (r: bool)
    ensures
        r == spec_is_absolute(path@),
{
    let n = path.unicode_len();
    if n == 0 {
        return false;
    }
    let c0 = path.get_char(0);
    if c0 == '/' {
        return true;
    }
    if n >= 2 && c0 == '\\' && path.get_char(1) == '\\' {
        return true;
    }
    if n >= 3 {
        let letter = ('a' <= c0 && c0 <= 'z') || ('A' <= c0 && c0 <= 'Z');
        let c1 = path.get_char(1);
        let c2 = path.get_char(2);
        if letter && c1 == ':' && (c2 == '/' || c2 == '\\') {
            return true;
        }
    }
    false
}

/// An absolute path relative to a base directory: the path itself when it
/// is already absolute, the join with the base otherwise.
pub fn to_absolute_path(path: &str, base: &str) -> (r: String)
    ensures
        spec_is_absolute(path@) ==> r@ == path@,
        !spec_is_absolute(path@) ==> r@ == spec_join(base@, path@),
{
    if is_absolute_path(path) {
        path.to_owned()
    } else {
        get_absolute_path(path, base)
    }
}

/// A relative path resolved against a base directory.
pub fn get_absolute_path(relative_path: &str, base: &str) -> (r: String)
    ensures
        r@ == spec_join(base@, relative_path@),
{
    join_path(base, relative_path)
}

} // verus!
