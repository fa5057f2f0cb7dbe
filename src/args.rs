use vstd::prelude::*;
use vstd::string::*;
use crate::text::{chars_of, has_prefix_at, rest_equals, string_of};

verus! {

/// The Unicode White_Space characters, which `char::is_whitespace` accepts:
/// U+0009..U+000D, space, U+0085, U+00A0, U+1680, U+2000..U+200A, U+2028,
/// U+2029, U+202F, U+205F and U+3000.
pub open spec fn unicode_whitespace(c: char) -> bool {
    let u = c as u32;
    (0x9 <= u && u <= 0xd) || u == 0x20 || u == 0x85 || u == 0xa0 || u == 0x1680 || (0x2000 <= u
        && u <= 0x200a) || u == 0x2028 || u == 0x2029 || u == 0x202f || u == 0x205f || u == 0x3000
}

pub fn is_whitespace(c: char) -> (r: bool)
    ensures
        r == unicode_whitespace(c),
{
    let u = c as u32;
    (0x9 <= u && u <= 0xd) || u == 0x20 || u == 0x85 || u == 0xa0 || u == 0x1680 || (0x2000 <= u
        && u <= 0x200a) || u == 0x2028 || u == 0x2029 || u == 0x202f || u == 0x205f || u == 0x3000
}

/// Which entries a search keeps.
#[derive(Clone, Copy, Debug, PartialEq, Eq, Structural)]
pub enum Type {
    Directory,
    File,
}

/// A parsed query line.
#[derive(Debug)]
pub struct Args {
    pub pattern: String,
    pub path: Vec<String>,
    pub kind: Option<Type>,
    pub show_hidden: bool,
    pub max_depth: Option<usize>,
    pub case_sensitive: bool,
    pub threads: Option<usize>,
    pub max_results: Option<usize>,
    pub json: bool,
}

/// Why a query line was refused; each carries the offending word.
#[derive(Debug)]
pub enum ParseError {
    UnknownArgument(String),
    MissingValue(String),
    InvalidValue(String),
    MissingPattern,
}

/// A query line's meaning, as values.
pub struct ArgsView {
    pub pattern: Option<Seq<char>>,
    pub paths: Seq<Seq<char>>,
    pub kind: Option<Type>,
    pub show_hidden: bool,
    pub max_depth: Option<usize>,
    pub case_sensitive: bool,
    pub threads: Option<usize>,
    pub max_results: Option<usize>,
    pub json: bool,
}

pub enum ArgError {
    UnknownArgument(Seq<char>),
    MissingValue(Seq<char>),
    InvalidValue(Seq<char>),
    MissingPattern,
}

/// The options that take a value.
#[derive(Clone, Copy, PartialEq, Eq, Structural)]
pub enum Opt {
    Kind,
    MaxDepth,
    Threads,
    MaxResults,
}

/// The options that are switches.
#[derive(Clone, Copy, PartialEq, Eq, Structural)]
pub enum Flag {
    Hidden,
    CaseSensitive,
    Json,
}

/// The words of `s`: its maximal runs of non-whitespace characters.
pub open spec fn words_upto(s: Seq<char>, i: int) -> (Seq<Seq<char>>, bool)
    decreases i,
{
    if i <= 0 {
        (Seq::empty(), false)
    } else {
        let (ws, in_word) = words_upto(s, i - 1);
        let c = s[i - 1];
        if unicode_whitespace(c) {
            (ws, false)
        } else if in_word {
            (ws.update(ws.len() - 1, ws.last().push(c)), true)
        } else {
            (ws.push(seq![c]), true)
        }
    }
}

pub open spec fn words(s: Seq<char>) -> Seq<Seq<char>> {
    words_upto(s, s.len() as int).0
}

pub open spec fn short_flag(c: char) -> Option<Flag> {
    if c == 'H' {
        Some(Flag::Hidden)
    } else if c == 's' {
        Some(Flag::CaseSensitive)
    } else if c == 'j' {
        Some(Flag::Json)
    } else {
        None
    }
}

pub open spec fn short_opt(c: char) -> Option<Opt> {
    if c == 'k' {
        Some(Opt::Kind)
    } else if c == 'd' {
        Some(Opt::MaxDepth)
    } else if c == 't' {
        Some(Opt::Threads)
    } else if c == 'm' {
        Some(Opt::MaxResults)
    } else {
        None
    }
}

pub open spec fn long_flag(name: Seq<char>) -> Option<Flag> {
    if name == "hidden"@ {
        Some(Flag::Hidden)
    } else if name == "case-sensitive"@ {
        Some(Flag::CaseSensitive)
    } else if name == "json"@ {
        Some(Flag::Json)
    } else {
        None
    }
}

pub open spec fn long_opt(name: Seq<char>) -> Option<Opt> {
    if name == "kind"@ {
        Some(Opt::Kind)
    } else if name == "max-depth"@ {
        Some(Opt::MaxDepth)
    } else if name == "threads"@ {
        Some(Opt::Threads)
    } else if name == "max-results"@ {
        Some(Opt::MaxResults)
    } else {
        None
    }
}

/// The entry kind a `--kind` value names.
pub open spec fn kind_named(v: Seq<char>) -> Option<Type> {
    if v == "file"@ || v == "f"@ {
        Some(Type::File)
    } else if v == "directory"@ || v == "dir"@ || v == "d"@ {
        Some(Type::Directory)
    } else {
        None
    }
}

/// The position of the first `=` in `s` at or after `i`.
pub open spec fn eq_from(s: Seq<char>, i: int) -> Option<int>
    decreases s.len() - i,
{
    if i < 0 || i >= s.len() {
        None
    } else if s[i] == '=' {
        Some(i)
    } else {
        eq_from(s, i + 1)
    }
}

pub open spec fn is_digit(c: char) -> bool {
    '0' <= c && c <= '9'
}

/// The value of the decimal digits `v[0..i]`, if they are all digits and
/// every prefix fits in a `usize`.
pub open spec fn decimal_prefix(v: Seq<char>, i: int) -> Option<nat>
    decreases i,
{
    if i <= 0 {
        Some(0)
    } else {
        match decimal_prefix(v, i - 1) {
            Some(n) => if is_digit(v[i - 1]) && n * 10 + (v[i - 1] as u32 - 48) <= usize::MAX {
                Some((n * 10 + (v[i - 1] as u32 - 48)) as nat)
            } else {
                None
            },
            None => None,
        }
    }
}

/// A positive decimal integer that fits in a `usize`.
pub open spec fn positive_value(v: Seq<char>) -> Option<usize> {
    if v.len() == 0 {
        None
    } else {
        match decimal_prefix(v, v.len() as int) {
            Some(n) => if n > 0 {
                Some(n as usize)
            } else {
                None
            },
            None => None,
        }
    }
}

pub open spec fn empty_view() -> ArgsView {
    ArgsView {
        pattern: None,
        paths: Seq::empty(),
        kind: None,
        show_hidden: false,
        max_depth: None,
        case_sensitive: false,
        threads: None,
        max_results: None,
        json: false,
    }
}

pub open spec fn set_flag(a: ArgsView, f: Flag) -> ArgsView {
    match f {
        Flag::Hidden => ArgsView { show_hidden: true, ..a },
        Flag::CaseSensitive => ArgsView { case_sensitive: true, ..a },
        Flag::Json => ArgsView { json: true, ..a },
    }
}

pub open spec fn set_opt(a: ArgsView, o: Opt, value: Seq<char>) -> Result<ArgsView, ArgError> {
    match o {
        Opt::Kind => match kind_named(value) {
            Some(k) => Ok(ArgsView { kind: Some(k), ..a }),
            None => Err(ArgError::InvalidValue(value)),
        },
        _ => match positive_value(value) {
            Some(n) => Ok(
                match o {
                    Opt::MaxDepth => ArgsView { max_depth: Some(n), ..a },
                    Opt::Threads => ArgsView { threads: Some(n), ..a },
                    _ => ArgsView { max_results: Some(n), ..a },
                },
            ),
            None => Err(ArgError::InvalidValue(value)),
        },
    }
}

/// The parse so far, and the option (with the word that named it) still
/// waiting for its value.
pub struct ParseState {
    pub args: ArgsView,
    pub pending: Option<(Opt, Seq<char>)>,
}

pub open spec fn settled(a: Result<ArgsView, ArgError>) -> Result<ParseState, ArgError> {
    match a {
        Ok(v) => Ok(ParseState { args: v, pending: None }),
        Err(e) => Err(e),
    }
}

/// Reads the short switches and options of `w` from position `i` on (as in
/// `-Hs`, `-Hkf`): switches are set one after another; an option takes the
/// rest of the word as its value, or the next word when nothing is left.
pub open spec fn cluster(a: ArgsView, w: Seq<char>, i: int) -> Result<ParseState, ArgError>
    decreases w.len() - i,
{
    if i < 0 || i >= w.len() {
        Ok(ParseState { args: a, pending: None })
    } else {
        match short_flag(w[i]) {
            Some(f) => cluster(set_flag(a, f), w, i + 1),
            None => match short_opt(w[i]) {
                Some(o) => if i + 1 == w.len() {
                    Ok(ParseState { args: a, pending: Some((o, w)) })
                } else {
                    settled(set_opt(a, o, w.subrange(i + 1, w.len() as int)))
                },
                None => Err(ArgError::UnknownArgument(w)),
            },
        }
    }
}

/// Reads one word: the value of a waiting option; a long (`--name`,
/// `--name=VALUE`) or
/// short (`-c`, `-cVALUE`, clustered `-cd`) option or switch; or a positional word, the
/// first being the pattern and the rest search roots.
pub open spec fn step(st: ParseState, w: Seq<char>) -> Result<ParseState, ArgError> {
    let a = st.args;
    match st.pending {
        Some((o, _)) => settled(set_opt(a, o, w)),
        None => if w.len() >= 2 && w[0] == '-' && w[1] == '-' {
            match eq_from(w, 2) {
                Some(k) => match long_opt(w.subrange(2, k)) {
                    Some(o) => settled(set_opt(a, o, w.subrange(k + 1, w.len() as int))),
                    None => Err(ArgError::UnknownArgument(w)),
                },
                None => {
                    let name = w.subrange(2, w.len() as int);
                    match long_flag(name) {
                        Some(f) => Ok(ParseState { args: set_flag(a, f), pending: None }),
                        None => match long_opt(name) {
                            Some(o) => Ok(ParseState { args: a, pending: Some((o, w)) }),
                            None => Err(ArgError::UnknownArgument(w)),
                        },
                    }
                },
            }
        } else if w.len() >= 2 && w[0] == '-' {
            cluster(a, w, 1)
        } else if a.pattern is None {
            Ok(ParseState { args: ArgsView { pattern: Some(w), ..a }, pending: None })
        } else {
            Ok(ParseState { args: ArgsView { paths: a.paths.push(w), ..a }, pending: None })
        },
    }
}

pub open spec fn run(ws: Seq<Seq<char>>) -> Result<ParseState, ArgError>
    decreases ws.len(),
{
    if ws.len() == 0 {
        Ok(ParseState { args: empty_view(), pending: None })
    } else {
        match run(ws.drop_last()) {
            Ok(st) => step(st, ws.last()),
            Err(e) => Err(e),
        }
    }
}

/// The meaning of a query line: the first error met, an option left without
/// its value, or no pattern at all make it an error.
pub open spec fn parse_line(line: Seq<char>) -> Result<ArgsView, ArgError> {
    match run(words(line)) {
        Ok(st) => match st.pending {
            Some((_, w)) => Err(ArgError::MissingValue(w)),
            None => if st.args.pattern is None {
                Err(ArgError::MissingPattern)
            } else {
                Ok(st.args)
            },
        },
        Err(e) => Err(e),
    }
}

impl Args {
    pub open spec fn view(&self) -> ArgsView {
        ArgsView {
            pattern: Some(self.pattern@),
            paths: self.path@.map_values(|p: String| p@),
            kind: self.kind,
            show_hidden: self.show_hidden,
            max_depth: self.max_depth,
            case_sensitive: self.case_sensitive,
            threads: self.threads,
            max_results: self.max_results,
            json: self.json,
        }
    }
}

impl ParseError {
    pub open spec fn view(&self) -> ArgError {
        match self {
            ParseError::UnknownArgument(w) => ArgError::UnknownArgument(w@),
            ParseError::MissingValue(w) => ArgError::MissingValue(w@),
            ParseError::InvalidValue(w) => ArgError::InvalidValue(w@),
            ParseError::MissingPattern => ArgError::MissingPattern,
        }
    }

    /// The message shown to the user.
    pub fn message(&self) -> (r: String)
        ensures
            r@ == match self.view() {
                ArgError::UnknownArgument(w) => "unexpected argument '"@ + w + "' found"@,
                ArgError::MissingValue(w) => "a value is required for '"@ + w + "' but none was supplied"@,
                ArgError::InvalidValue(w) => "invalid value '"@ + w + "'"@,
                ArgError::MissingPattern => "the required pattern was not provided"@,
            },
    {
        match self {
            ParseError::UnknownArgument(w) => String::from_str("unexpected argument '").concat(
                w.as_str(),
            ).concat("' found"),
            ParseError::MissingValue(w) => String::from_str("a value is required for '").concat(
                w.as_str(),
            ).concat("' but none was supplied"),
            ParseError::InvalidValue(w) => String::from_str("invalid value '").concat(
                w.as_str(),
            ).concat("'"),
            ParseError::MissingPattern => String::from_str("the required pattern was not provided"),
        }
    }
}

/// Splits a line into its whitespace-separated words.
pub fn split_whitespace(line: &str) -> (r: Vec<Vec<char>>)
    ensures
        r@.map_values(|w: Vec<char>| w@) == words(line@),
{
    let chars = chars_of(line);
    let mut out: Vec<Vec<char>> = Vec::new();
    let mut in_word = false;
    let mut i: usize = 0;
    while i < chars.len()
        invariant
            chars@ == line@,
            i <= chars@.len(),
            (out@.map_values(|w: Vec<char>| w@), in_word) == words_upto(line@, i as int),
            in_word ==> out@.len() > 0,
        decreases chars@.len() - i,
    {
        let c = chars[i];
        let ghost prev = out@.map_values(|w: Vec<char>| w@);
        if is_whitespace(c) {
            in_word = false;
        } else if in_word {
            let last = out.len() - 1;
            let mut w = out[last].clone();
            w.push(c);
            out.set(last, w);
            assert(out@.map_values(|w: Vec<char>| w@) =~= prev.update(
                prev.len() - 1,
                prev.last().push(c),
            ));
        } else {
            let mut w: Vec<char> = Vec::new();
            w.push(c);
            out.push(w);
            assert(out@.map_values(|w: Vec<char>| w@) =~= prev.push(seq![c]));
            in_word = true;
        }
        i = i + 1;
    }
    out
}

fn word_is(w: &Vec<char>, from: usize, lit: &str) -> (r: bool)
    requires
        from <= w@.len(),
    ensures
        r == (w@.subrange(from as int, w@.len() as int) == lit@),
{
    rest_equals(w, from, lit)
}

fn short_flag_of(c: char) -> (r: Option<Flag>)
    ensures
        r == short_flag(c),
{
    if c == 'H' {
        Some(Flag::Hidden)
    } else if c == 's' {
        Some(Flag::CaseSensitive)
    } else if c == 'j' {
        Some(Flag::Json)
    } else {
        None
    }
}

fn short_opt_of(c: char) -> (r: Option<Opt>)
    ensures
        r == short_opt(c),
{
    if c == 'k' {
        Some(Opt::Kind)
    } else if c == 'd' {
        Some(Opt::MaxDepth)
    } else if c == 't' {
        Some(Opt::Threads)
    } else if c == 'm' {
        Some(Opt::MaxResults)
    } else {
        None
    }
}

fn long_flag_of(w: &Vec<char>) -> (r: Option<Flag>)
    requires
        w@.len() >= 2,
    ensures
        r == long_flag(w@.subrange(2, w@.len() as int)),
{
    if word_is(w, 2, "hidden") {
        Some(Flag::Hidden)
    } else if word_is(w, 2, "case-sensitive") {
        Some(Flag::CaseSensitive)
    } else if word_is(w, 2, "json") {
        Some(Flag::Json)
    } else {
        None
    }
}

/// Whether `w[from..to]` is exactly the characters of `lit`.
fn range_is(w: &Vec<char>, from: usize, to: usize, lit: &str) -> (r: bool)
    requires
        from <= to <= w@.len(),
    ensures
        r == (w@.subrange(from as int, to as int) == lit@),
{
    let n = lit.unicode_len();
    if to - from != n {
        proof {
            if w@.subrange(from as int, to as int) == lit@ {
                assert(w@.subrange(from as int, to as int).len() == lit@.len());
            }
        }
        return false;
    }
    has_prefix_at(w, from, lit)
}

/// The option named by `w[2..to]`.
fn long_opt_named(w: &Vec<char>, to: usize) -> (r: Option<Opt>)
    requires
        2 <= to <= w@.len(),
    ensures
        r == long_opt(w@.subrange(2, to as int)),
{
    if range_is(w, 2, to, "kind") {
        Some(Opt::Kind)
    } else if range_is(w, 2, to, "max-depth") {
        Some(Opt::MaxDepth)
    } else if range_is(w, 2, to, "threads") {
        Some(Opt::Threads)
    } else if range_is(w, 2, to, "max-results") {
        Some(Opt::MaxResults)
    } else {
        None
    }
}

/// The position of the first `=` in `w` at or after `from`.
fn find_eq(w: &Vec<char>, from: usize) -> (r: Option<usize>)
    requires
        from <= w@.len(),
    ensures
        r is None <==> eq_from(w@, from as int) is None,
        r matches Some(k) ==> eq_from(w@, from as int) == Some(k as int) && from <= k < w@.len(),
{
    let mut i: usize = from;
    while i < w.len()
        invariant
            from <= i <= w@.len(),
            eq_from(w@, from as int) == eq_from(w@, i as int),
        decreases w@.len() - i,
    {
        if w[i] == '=' {
            return Some(i);
        }
        i = i + 1;
    }
    None
}

fn long_opt_of(w: &Vec<char>) -> (r: Option<Opt>)
    requires
        w@.len() >= 2,
    ensures
        r == long_opt(w@.subrange(2, w@.len() as int)),
{
    if word_is(w, 2, "kind") {
        Some(Opt::Kind)
    } else if word_is(w, 2, "max-depth") {
        Some(Opt::MaxDepth)
    } else if word_is(w, 2, "threads") {
        Some(Opt::Threads)
    } else if word_is(w, 2, "max-results") {
        Some(Opt::MaxResults)
    } else {
        None
    }
}

/// Reads `v[from..]` as a positive decimal integer that fits in a `usize`.
fn positive_of(v: &Vec<char>, from: usize) -> (r: Option<usize>)
    requires
        from <= v@.len(),
    ensures
        r == positive_value(v@.subrange(from as int, v@.len() as int)),
{
    let ghost s = v@.subrange(from as int, v@.len() as int);
    if from == v.len() {
        return None;
    }
    let mut n: usize = 0;
    let mut i: usize = from;
    while i < v.len()
        invariant
            from <= i <= v@.len(),
            s == v@.subrange(from as int, v@.len() as int),
            decimal_prefix(s, i - from) == Some(n as nat),
        decreases v@.len() - i,
    {
        let c = v[i];
        assert(s[i - from] == c);
        if !('0' <= c && c <= '9') {
            assert(decimal_prefix(s, i - from + 1) is None);
            proof { lemma_decimal_none_stays(s, i - from + 1); }
            return None;
        }
        let d = (c as u32 - 48) as usize;
        match n.checked_mul(10) {
            Some(m) => match m.checked_add(d) {
                Some(next) => {
                    n = next;
                },
                None => {
                    proof { lemma_decimal_none_stays(s, i - from + 1); }
                    return None;
                },
            },
            None => {
                proof { lemma_decimal_none_stays(s, i - from + 1); }
                return None;
            },
        }
        i = i + 1;
    }
    assert(i - from == s.len());
    if n == 0 {
        None
    } else {
        Some(n)
    }
}

/// Once a prefix is refused, every longer prefix is too.
proof fn lemma_decimal_none_stays(s: Seq<char>, i: int)
    requires
        0 <= i <= s.len(),
        decimal_prefix(s, i) is None,
    ensures
        decimal_prefix(s, s.len() as int) is None,
    decreases s.len() - i,
{
    if i < s.len() {
        lemma_decimal_none_stays(s, i + 1);
    }
}

fn kind_of(v: &Vec<char>, from: usize) -> (r: Option<Type>)
    requires
        from <= v@.len(),
    ensures
        r == kind_named(v@.subrange(from as int, v@.len() as int)),
{
    if word_is(v, from, "file") || word_is(v, from, "f") {
        Some(Type::File)
    } else if word_is(v, from, "directory") || word_is(v, from, "dir") || word_is(v, from, "d") {
        Some(Type::Directory)
    } else {
        None
    }
}

/// The parse state in executable form.
struct Parsed {
    pattern: Option<String>,
    paths: Vec<String>,
    kind: Option<Type>,
    show_hidden: bool,
    max_depth: Option<usize>,
    case_sensitive: bool,
    threads: Option<usize>,
    max_results: Option<usize>,
    json: bool,
}

impl Parsed {
    spec fn view(&self) -> ArgsView {
        ArgsView {
            pattern: match self.pattern {
                Some(p) => Some(p@),
                None => None,
            },
            paths: self.paths@.map_values(|p: String| p@),
            kind: self.kind,
            show_hidden: self.show_hidden,
            max_depth: self.max_depth,
            case_sensitive: self.case_sensitive,
            threads: self.threads,
            max_results: self.max_results,
            json: self.json,
        }
    }

    fn set_flag(&mut self, f: Flag)
        ensures
            final(self).view() == set_flag(old(self).view(), f),
    {
        match f {
            Flag::Hidden => self.show_hidden = true,
            Flag::CaseSensitive => self.case_sensitive = true,
            Flag::Json => self.json = true,
        }
    }

    /// Reads the cluster of short switches and options in `w[1..]`; returns
    /// the option left waiting for the next word, if any.
    fn take_cluster(&mut self, w: &Vec<char>) -> (r: Result<Option<Opt>, ParseError>)
        requires
            w@.len() >= 2,
        ensures
            match cluster(old(self).view(), w@, 1) {
                Ok(st) => r is Ok && final(self).view() == st.args && match st.pending {
                    Some((o, pw)) => r->Ok_0 == Some(o) && pw == w@,
                    None => r->Ok_0 is None,
                },
                Err(e) => r is Err && r->Err_0.view() == e,
            },
    {
        let mut i: usize = 1;
        while i < w.len()
            invariant
                1 <= i <= w@.len(),
                cluster(old(self).view(), w@, 1) == cluster(self.view(), w@, i as int),
            decreases w@.len() - i,
        {
            match short_flag_of(w[i]) {
                Some(f) => {
                    self.set_flag(f);
                },
                None => match short_opt_of(w[i]) {
                    Some(o) => {
                        if i + 1 == w.len() {
                            return Ok(Some(o));
                        }
                        return match self.set_opt(o, w, i + 1) {
                            Ok(()) => Ok(None),
                            Err(e) => Err(e),
                        };
                    },
                    None => {
                        assert(w@.subrange(0, w@.len() as int) =~= w@);
                        return Err(ParseError::UnknownArgument(string_of(w, 0, w.len())));
                    },
                },
            }
            i = i + 1;
        }
        Ok(None)
    }

    /// Sets option `o` from the value `w[from..]`.
    fn set_opt(&mut self, o: Opt, w: &Vec<char>, from: usize) -> (r: Result<(), ParseError>)
        requires
            from <= w@.len(),
        ensures
            match set_opt(old(self).view(), o, w@.subrange(from as int, w@.len() as int)) {
                Ok(a) => r is Ok && final(self).view() == a,
                Err(e) => r is Err && r->Err_0.view() == e,
            },
    {
        match o {
            Opt::Kind => match kind_of(w, from) {
                Some(k) => {
                    self.kind = Some(k);
                    Ok(())
                },
                None => Err(ParseError::InvalidValue(string_of(w, from, w.len()))),
            },
            _ => match positive_of(w, from) {
                Some(n) => {
                    match o {
                        Opt::MaxDepth => self.max_depth = Some(n),
                        Opt::Threads => self.threads = Some(n),
                        _ => self.max_results = Some(n),
                    }
                    Ok(())
                },
                None => Err(ParseError::InvalidValue(string_of(w, from, w.len()))),
            },
        }
    }
}

/// Parses a query line: `pattern [roots...]` with the options `-k/--kind`,
/// `-H/--hidden`, `-d/--max-depth`, `-s/--case-sensitive`, `-t/--threads`,
/// `-m/--max-results` and `-j/--json`.
#[verifier::rlimit(60)]
pub fn parse_input_args(input: &str) -> (r: Result<Args, ParseError>)
    ensures
        match parse_line(input@) {
            Ok(a) => r is Ok && r->Ok_0.view() == a,
            Err(e) => r is Err && r->Err_0.view() == e,
        },
{
    let ws = split_whitespace(input);
    let ghost wv = ws@.map_values(|w: Vec<char>| w@);
    let mut st = Parsed {
        pattern: None,
        paths: Vec::new(),
        kind: None,
        show_hidden: false,
        max_depth: None,
        case_sensitive: false,
        threads: None,
        max_results: None,
        json: false,
    };
    assert(st.view().paths =~= Seq::<Seq<char>>::empty());
    let mut pending: Option<(Opt, usize)> = None;
    let mut i: usize = 0;
    while i < ws.len()
        invariant
            wv == ws@.map_values(|w: Vec<char>| w@),
            wv == words(input@),
            i <= ws@.len(),
            pending matches Some((_, j)) ==> j < i,
            run(wv.subrange(0, i as int)) == Ok::<ParseState, ArgError>(
                ParseState {
                    args: st.view(),
                    pending: match pending {
                        Some((o, j)) => Some((o, wv[j as int])),
                        None => None,
                    },
                },
            ),
        decreases ws@.len() - i,
    {
        let w = &ws[i];
        let ghost st0 = ParseState {
            args: st.view(),
            pending: match pending {
                Some((o, j)) => Some((o, wv[j as int])),
                None => None,
            },
        };
        assert(wv.subrange(0, i + 1).drop_last() =~= wv.subrange(0, i as int));
        assert(wv[i as int] == w@);
        assert(run(wv.subrange(0, i + 1)) == step(st0, w@));
        assert(w@.subrange(0, w@.len() as int) =~= w@);
        match pending {
            Some((o, _)) => {
                match st.set_opt(o, w, 0) {
                    Ok(()) => {},
                    Err(e) => {
                        proof { lemma_run_error_stays(wv, i + 1); }
                        return Err(e);
                    },
                }
                assert(w@.subrange(0, w@.len() as int) =~= w@);
                pending = None;
            },
            None => {
                if w.len() >= 2 && w[0] == '-' && w[1] == '-' {
                    match find_eq(w, 2) {
                        Some(k) => {
                            match long_opt_named(w, k) {
                                Some(o) => {
                                    assert(step(st0, w@) == settled(
                                        set_opt(st0.args, o, w@.subrange(k + 1, w@.len() as int)),
                                    ));
                                    match st.set_opt(o, w, k + 1) {
                                        Ok(()) => {},
                                        Err(e) => {
                                            proof { lemma_run_error_stays(wv, i + 1); }
                                            return Err(e);
                                        },
                                    }
                                },
                                None => {
                                    proof { lemma_run_error_stays(wv, i + 1); }
                                    return Err(
                                        ParseError::UnknownArgument(string_of(w, 0, w.len())),
                                    );
                                },
                            }
                        },
                        None => match long_flag_of(w) {
                        Some(f) => st.set_flag(f),
                        None => match long_opt_of(w) {
                            Some(o) => {
                                pending = Some((o, i));
                            },
                            None => {
                                proof { lemma_run_error_stays(wv, i + 1); }
                                return Err(ParseError::UnknownArgument(string_of(w, 0, w.len())));
                            },
                        },
                        },
                    }
                } else if w.len() >= 2 && w[0] == '-' {
                    assert(step(st0, w@) == cluster(st0.args, w@, 1));
                    match st.take_cluster(w) {
                        Ok(Some(o)) => {
                            pending = Some((o, i));
                        },
                        Ok(None) => {},
                        Err(e) => {
                            proof { lemma_run_error_stays(wv, i + 1); }
                            return Err(e);
                        },
                    }
                } else if st.pattern.is_none() {
                    st.pattern = Some(string_of(w, 0, w.len()));
                } else {
                    let ghost before = st.paths@.map_values(|p: String| p@);
                    st.paths.push(string_of(w, 0, w.len()));
                    assert(st.paths@.map_values(|p: String| p@) =~= before.push(w@));
                }
            },
        }
        i = i + 1;
    }
    assert(wv.subrange(0, i as int) =~= wv);
    match pending {
        Some((_, j)) => {
            let w = &ws[j];
            assert(w@.subrange(0, w@.len() as int) =~= w@);
            assert(wv[j as int] == w@);
            Err(ParseError::MissingValue(string_of(w, 0, w.len())))
        },
        None => match st.pattern {
            None => Err(ParseError::MissingPattern),
            Some(pattern) => {
                let r = Args {
                    pattern,
                    path: st.paths,
                    kind: st.kind,
                    show_hidden: st.show_hidden,
                    max_depth: st.max_depth,
                    case_sensitive: st.case_sensitive,
                    threads: st.threads,
                    max_results: st.max_results,
                    json: st.json,
                };
                assert(r.view() == st.view());
                Ok(r)
            },
        },
    }
}

/// An error met at some word is the error of the whole line.
proof fn lemma_run_error_stays(ws: Seq<Seq<char>>, i: int)
    requires
        0 <= i <= ws.len(),
        run(ws.subrange(0, i)) is Err,
    ensures
        run(ws) == run(ws.subrange(0, i)),
    decreases ws.len() - i,
{
    if i < ws.len() {
        assert(ws.subrange(0, i + 1).drop_last() =~= ws.subrange(0, i));
        lemma_run_error_stays(ws, i + 1);
    } else {
        assert(ws.subrange(0, i) =~= ws);
    }
}

} // verus!

verus! {

/// A path as a search root: `.` becomes `./`, anything else stays.
pub open spec fn normalized(path: Seq<char>) -> Seq<char> {
    if path == "."@ {
        "./"@
    } else {
        path
    }
}

pub fn normalize_path(path: &str) -> (r: String)
    ensures
        r@ == normalized(path@),
{
    if String::from_str(path) == String::from_str(".") {
        String::from_str("./")
    } else {
        String::from_str(path)
    }
}

/// A leading `~` replaced by the home directory, when one is known.
pub open spec fn tilde_expanded(path: Seq<char>, home: Option<Seq<char>>) -> Seq<char> {
    match home {
        Some(h) => if path.len() > 0 && path[0] == '~' {
            h + path.subrange(1, path.len() as int)
        } else {
            path
        },
        None => path,
    }
}

pub fn expand_tilde(path: String, home: Option<String>) -> (r: String)
    ensures
        r@ == tilde_expanded(
            path@,
            match home {
                Some(h) => Some(h@),
                None => None,
            },
        ),
{
    match home {
        Some(h) => {
            let n = path.as_str().unicode_len();
            if n > 0 && path.as_str().get_char(0) == '~' {
                let rest = path.as_str().substring_char(1, n);
                h.concat(rest)
            } else {
                path
            }
        },
        None => path,
    }
}

/// The message when the working directory cannot be searched.
pub const NO_CURRENT_DIR: &'static str = "Could not retrieve current directory";

pub fn is_valid_directory(is_existing_dir: bool) -> (r: Result<(), String>)
    ensures
        is_existing_dir ==> r is Ok,
        !is_existing_dir ==> r is Err && r->Err_0@ == NO_CURRENT_DIR@,
{
    if is_existing_dir {
        Ok(())
    } else {
        Err(String::from_str(NO_CURRENT_DIR))
    }
}

/// The roots kept from the given (already expanded) paths: those that are
/// directories, normalized, in order.
pub open spec fn kept_roots(paths: Seq<Seq<char>>, existing: Seq<bool>) -> Seq<Seq<char>>
    decreases paths.len(),
{
    if paths.len() == 0 || existing.len() == 0 {
        Seq::empty()
    } else {
        let rest = kept_roots(paths.drop_last(), existing.drop_last());
        if existing.last() {
            rest.push(normalized(paths.last()))
        } else {
            rest
        }
    }
}

/// Keeps the paths that are directories (`existing[i]` tells of
/// `paths[i]`), normalized.
pub fn get_search_paths(paths: &Vec<String>, existing: &Vec<bool>) -> (r: Vec<String>)
    requires
        paths@.len() == existing@.len(),
    ensures
        r@.map_values(|p: String| p@) == kept_roots(paths@.map_values(|p: String| p@), existing@),
{
    let ghost pv = paths@.map_values(|p: String| p@);
    let mut out: Vec<String> = Vec::new();
    let mut i: usize = 0;
    while i < paths.len()
        invariant
            paths@.len() == existing@.len(),
            pv == paths@.map_values(|p: String| p@),
            i <= paths@.len(),
            out@.map_values(|p: String| p@) == kept_roots(
                pv.subrange(0, i as int),
                existing@.subrange(0, i as int),
            ),
        decreases paths@.len() - i,
    {
        assert(pv.subrange(0, i + 1).drop_last() =~= pv.subrange(0, i as int));
        assert(existing@.subrange(0, i + 1).drop_last() =~= existing@.subrange(0, i as int));
        let ghost before = out@.map_values(|p: String| p@);
        if existing[i] {
            out.push(normalize_path(paths[i].as_str()));
            assert(out@.map_values(|p: String| p@) =~= before.push(normalized(pv[i as int])));
        }
        i = i + 1;
    }
    assert(pv.subrange(0, i as int) =~= pv);
    assert(existing@.subrange(0, i as int) =~= existing@);
    out
}

/// With no roots given, the working directory (if usable) is the one root.
pub fn current_dir_search_paths(cwd: &str, cwd_is_dir: bool) -> (r: Result<Vec<String>, String>)
    ensures
        cwd_is_dir ==> r is Ok && r->Ok_0@.len() == 1 && r->Ok_0@[0]@ == normalized(cwd@),
        !cwd_is_dir ==> r is Err && r->Err_0@ == NO_CURRENT_DIR@,
{
    match is_valid_directory(cwd_is_dir) {
        Ok(()) => Ok(vec![normalize_path(cwd)]),
        Err(e) => Err(e),
    }
}

} // verus!
