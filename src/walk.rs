use vstd::prelude::*;
use vstd::set_lib::*;
use crate::args::Type;
use crate::config::Config;

verus! {

#[verifier::external_type_specification]
#[verifier::external_body]
pub struct ExRegex(regex::bytes::Regex);

#[verifier::external_type_specification]
#[verifier::external_body]
pub struct ExRegexError(regex::Error);

/// Whether `regex` compiles `pattern` with the given case folding and with
/// `.` matching newlines.
pub uninterp spec fn regex_accepts(pattern: Seq<char>, case_insensitive: bool) -> bool;

/// Whether the byte regex compiled from `pattern` (with the given case
/// folding, `.` matching newlines) matches somewhere in `haystack`.
pub uninterp spec fn regex_matches(
    pattern: Seq<char>,
    case_insensitive: bool,
    haystack: Seq<u8>,
) -> bool;

/// Relies on `regex::bytes::RegexBuilder` (`new`, `case_insensitive`,
/// `dot_matches_new_line(true)`, `build`): the build succeeds exactly for
/// the patterns it accepts.
#[verifier::external_body]
fn build_regex(pattern: &str, case_insensitive: bool) -> (r: Result<
    regex::bytes::Regex,
    regex::Error,
>)
    ensures
        r is Ok <==> regex_accepts(pattern@, case_insensitive),
{
    regex::bytes::RegexBuilder::new(pattern).case_insensitive(case_insensitive).dot_matches_new_line(
        true,
    ).build()
}

/// Relies on the `Display` of `regex::Error`.
#[verifier::external_body]
fn regex_error_message(e: &regex::Error) -> (r: String) {
    e.to_string()
}

/// A compiled name pattern together with what it was compiled from; only
/// `NameRegex::new` makes one, so `regex` is always the compilation of
/// `pattern` under `case_insensitive`.
pub struct NameRegex {
    regex: regex::bytes::Regex,
    pattern: String,
    case_insensitive: bool,
}

/// Relies on `regex::bytes::Regex::is_match`, on a regex that `NameRegex::new`
/// compiled from `re.pattern` under `re.case_insensitive`.
#[verifier::external_body]
fn name_is_match(re: &NameRegex, name: &[u8]) -> (r: bool)
    ensures
        r == regex_matches(re.source(), re.folds_case(), name@),
{
    re.regex.is_match(name)
}

impl NameRegex {
    pub closed spec fn source(&self) -> Seq<char> {
        self.pattern@
    }

    pub closed spec fn folds_case(&self) -> bool {
        self.case_insensitive
    }

    /// Compiles the name pattern of a search: case-insensitive unless the
    /// search is case-sensitive.
    pub fn new(pattern: &str, config: &Config) -> (r: Result<NameRegex, String>)
        ensures
            r is Ok <==> regex_accepts(pattern@, !config.case_sensitive),
            r is Ok ==> r->Ok_0.source() == pattern@ && r->Ok_0.folds_case()
                == !config.case_sensitive,
    {
        let case_insensitive = !config.case_sensitive;
        match build_regex(pattern, case_insensitive) {
            Ok(regex) => Ok(NameRegex { regex, pattern: String::from_str(pattern), case_insensitive }),
            Err(e) => Err(regex_error_message(&e)),
        }
    }

    /// Whether the pattern matches somewhere in a file name's bytes.
    pub fn is_match(&self, name: &[u8]) -> (r: bool)
        ensures
            r == regex_matches(self.source(), self.folds_case(), name@),
    {
        name_is_match(self, name)
    }
}

/// What the file system says an entry is.
#[derive(Clone, Copy, Debug, PartialEq, Eq, Structural)]
pub enum EntryKind {
    File,
    Directory,
    Other,
}

impl EntryKind {
    /// The kind of an entry whose file type reports it as a file or a
    /// directory (a file when both are claimed).
    pub fn from_file_type(is_file: bool, is_dir: bool) -> (r: EntryKind)
        ensures
            is_file ==> r == EntryKind::File,
            !is_file && is_dir ==> r == EntryKind::Directory,
            !is_file && !is_dir ==> r == EntryKind::Other,
    {
        if is_file {
            EntryKind::File
        } else if is_dir {
            EntryKind::Directory
        } else {
            EntryKind::Other
        }
    }
}

/// How the directory walker is to be set up for a search.
#[derive(Debug)]
pub struct WalkPlan {
    pub roots: Vec<String>,
    pub hidden: bool,
    pub max_depth: Option<usize>,
    pub ignore_case_insensitive: bool,
    pub follow_links: bool,
    pub same_file_system: bool,
    pub threads: usize,
}

/// The message when a search has no root.
pub const NO_PATHS: &'static str = "No paths provided for search";

/// Whether an entry of the given file type passes the kind filter; an
/// entry whose type is unknown never does.
pub open spec fn kind_passes(kind: Option<Type>, file_type: Option<EntryKind>) -> bool {
    match file_type {
        Some(ft) => match kind {
            Some(Type::File) => ft == EntryKind::File,
            Some(Type::Directory) => ft == EntryKind::Directory,
            None => true,
        },
        None => false,
    }
}

/// Whether an entry at `depth` is within the depth limit.
pub open spec fn depth_passes(depth: int, max_depth: Option<usize>) -> bool {
    match max_depth {
        Some(d) => depth <= d,
        None => true,
    }
}

/// Whether a file name is hidden (starts with a dot) while hidden entries
/// are not wanted.
pub open spec fn hidden_skipped(file_name: Seq<u8>, show_hidden: bool) -> bool {
    !show_hidden && file_name.len() > 0 && file_name[0] == 46u8
}

/// Whether the `count`-th entry to pass the filters (counting from one) is
/// still within the results cap.
pub open spec fn within_cap(count: int, max_results: Option<usize>) -> bool {
    match max_results {
        Some(m) => count <= m,
        None => true,
    }
}

pub fn should_process_entry(file_type: Option<EntryKind>, kind: &Option<Type>) -> (r: bool)
    ensures
        r == kind_passes(*kind, file_type),
{
    match file_type {
        Some(ft) => match kind {
            Some(Type::File) => ft == EntryKind::File,
            Some(Type::Directory) => ft == EntryKind::Directory,
            None => true,
        },
        None => false,
    }
}

/// The walker of one search.
pub struct Walker {
    pub config: Config,
}

impl Walker {
    pub fn new(config: Config) -> (r: Walker)
        ensures
            r.config == config,
    {
        Walker { config }
    }

    /// The walker setup for the given roots: ignore files honoured, hidden
    /// entries skipped unless asked for, links not followed, one file
    /// system, the search's depth limit and worker count.
    pub fn build(&self, paths: &Vec<String>) -> (r: Result<WalkPlan, String>)
        ensures
            paths@.len() == 0 ==> r is Err && r->Err_0@ == NO_PATHS@,
            paths@.len() > 0 ==> r is Ok && ({
                let p = r->Ok_0;
                &&& p.roots@.map_values(|s: String| s@) == paths@.map_values(|s: String| s@)
                &&& p.hidden == !self.config.show_hidden
                &&& p.max_depth == self.config.max_depth
                &&& p.ignore_case_insensitive == self.config.case_sensitive
                &&& !p.follow_links
                &&& p.same_file_system
                &&& p.threads == self.config.threads
            }),
    {
        if paths.len() == 0 {
            return Err(String::from_str(NO_PATHS));
        }
        let mut roots: Vec<String> = Vec::new();
        let mut i: usize = 0;
        while i < paths.len()
            invariant
                i <= paths@.len(),
                roots@.map_values(|s: String| s@) == paths@.subrange(0, i as int).map_values(
                    |s: String| s@,
                ),
            decreases paths@.len() - i,
        {
            let ghost before = roots@.map_values(|s: String| s@);
            roots.push(String::from_str(paths[i].as_str()));
            assert(roots@.map_values(|s: String| s@) =~= before.push(paths@[i as int]@));
            assert(paths@.subrange(0, i + 1).map_values(|s: String| s@) =~= paths@.subrange(
                0,
                i as int,
            ).map_values(|s: String| s@).push(paths@[i as int]@));
            i = i + 1;
        }
        assert(paths@.subrange(0, i as int) =~= paths@);
        Ok(
            WalkPlan {
                roots,
                hidden: !self.config.show_hidden,
                max_depth: self.config.max_depth,
                ignore_case_insensitive: self.config.case_sensitive,
                follow_links: false,
                same_file_system: true,
                threads: self.config.threads,
            },
        )
    }

    /// Whether a walked entry is a result: not a root itself, within the
    /// depth limit, not hidden unless asked for, of the asked kind, and with a
    /// file name the pattern matches.
    pub fn accepts(
        &self,
        regex: &NameRegex,
        depth: usize,
        file_type: Option<EntryKind>,
        file_name: &[u8],
    ) -> (r: bool)
        ensures
            r == (depth >= 1 && depth_passes(depth as int, self.config.max_depth)
                && !hidden_skipped(file_name@, self.config.show_hidden) && kind_passes(
                self.config.kind,
                file_type,
            ) && regex_matches(regex.source(), regex.folds_case(), file_name@)),
    {
        if depth == 0 {
            return false;
        }
        if let Some(d) = self.config.max_depth {
            if depth > d {
                return false;
            }
        }
        if !self.config.show_hidden && file_name.len() > 0 && file_name[0] == 46u8 {
            return false;
        }
        if !should_process_entry(file_type, &self.config.kind) {
            return false;
        }
        regex.is_match(file_name)
    }

    /// Whether an accepted entry is sent, given the value the shared
    /// counter took when this entry was counted; once one is not, the walk
    /// stops.
    pub fn within_cap(&self, count: usize) -> (r: bool)
        ensures
            r == within_cap(count as int, self.config.max_results),
    {
        match self.config.max_results {
            Some(m) => count <= m,
            None => true,
        }
    }
}

/// The counter values a run hands out: one per accepted entry, from one up.
pub open spec fn counts_upto(k: int) -> Set<int> {
    Set::new(|c: int| 1 <= c <= k)
}

/// Of `k` accepted entries, those sent are exactly `min(k, max)`: never
/// more than the cap, and all of them while the cap is not reached.
pub proof fn lemma_sent_count(k: nat, max: usize)
    ensures
        counts_upto(k as int).filter(|c: int| within_cap(c, Some(max))).finite(),
        counts_upto(k as int).filter(|c: int| within_cap(c, Some(max))).len() == if k <= max {
            k as int
        } else {
            max as int
        },
{
    let bound = if k <= max {
        k as int
    } else {
        max as int
    };
    let sent = counts_upto(k as int).filter(|c: int| within_cap(c, Some(max)));
    assert(sent =~= set_int_range(1, bound + 1));
    lemma_int_range(1, bound + 1);
}

/// With no cap, every accepted entry is sent.
pub proof fn lemma_uncapped_sends_all(k: nat)
    ensures
        counts_upto(k as int).filter(|c: int| within_cap(c, None)) == counts_upto(k as int),
        counts_upto(k as int).len() == k,
{
    assert(counts_upto(k as int).filter(|c: int| within_cap(c, None)) =~= counts_upto(k as int));
    assert(counts_upto(k as int) =~= set_int_range(1, k as int + 1));
    lemma_int_range(1, k as int + 1);
}

} // verus!
