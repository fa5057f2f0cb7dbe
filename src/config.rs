use vstd::prelude::*;
use crate::args::{Args, Type};

verus! {

/// Whether `char::is_uppercase` holds of a character.
pub uninterp spec fn unicode_uppercase(c: char) -> bool;

/// Relies on `char::is_uppercase`.
#[verifier::external_body]
fn is_uppercase(c: char) -> (r: bool)
    ensures
        r == unicode_uppercase(c),
{
    c.is_uppercase()
}

pub open spec fn has_uppercase(p: Seq<char>) -> bool {
    exists|i: int| 0 <= i < p.len() && unicode_uppercase(#[trigger] p[i])
}

pub fn has_uppercase_char(pattern: &str) -> (r: bool)
    ensures
        r == has_uppercase(pattern@),
{
    let chars = crate::text::chars_of(pattern);
    let mut i: usize = 0;
    while i < chars.len()
        invariant
            chars@ == pattern@,
            i <= chars@.len(),
            forall|j: int| 0 <= j < i ==> !unicode_uppercase(#[trigger] pattern@[j]),
        decreases chars@.len() - i,
    {
        if is_uppercase(chars[i]) {
            return true;
        }
        i = i + 1;
    }
    false
}

/// The settings of one search, fixed when it starts.
#[derive(Debug)]
pub struct Config {
    pub kind: Option<Type>,
    pub show_hidden: bool,
    pub max_depth: Option<usize>,
    pub case_sensitive: bool,
    pub threads: usize,
    pub max_results: Option<usize>,
}

impl Config {
    /// The settings of a parsed query: matching is case-sensitive when asked
    /// or when the pattern holds an uppercase letter; the worker count is the
    /// one asked for, else `available_threads`, and at least one.
    pub fn build(args: &Args, available_threads: usize) -> (r: Config)
        ensures
            r.kind == args.kind,
            r.show_hidden == args.show_hidden,
            r.max_depth == args.max_depth,
            r.case_sensitive == (args.case_sensitive || has_uppercase(args.pattern@)),
            r.threads == match args.threads {
                Some(t) if t > 0 => t,
                _ => if available_threads > 0 {
                    available_threads
                } else {
                    1
                },
            },
            r.threads >= 1,
            r.max_results == args.max_results,
    {
        let case_sensitive = args.case_sensitive || has_uppercase_char(args.pattern.as_str());
        let fallback = if available_threads > 0 {
            available_threads
        } else {
            1
        };
        let threads = match args.threads {
            Some(t) => if t > 0 {
                t
            } else {
                fallback
            },
            None => fallback,
        };
        Config {
            kind: args.kind,
            show_hidden: args.show_hidden,
            max_depth: args.max_depth,
            case_sensitive,
            threads,
            max_results: args.max_results,
        }
    }
}

} // verus!
