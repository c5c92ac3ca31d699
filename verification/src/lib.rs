//! Developer-facing helpers for a Polkadot SDK command-line wrapper.
//!
//! The core of the crate is a command builder/runner abstraction: a program
//! name plus an ordered argument list, assembled by conditional appends and
//! handed to the host for execution.  The crate also holds the pure decision
//! logic of the wrapper: operating-system classification, chain-spec file
//! relocation planning, per-tool argument-list construction, and line search.

use vstd::prelude::*;
use crate::text::contains_seq;
use crate::text::contains_str;
use crate::text::lemma_filter_push;
use crate::text::lower_of;
use crate::text::lowercase;
use crate::text::split_lines;
use crate::text::split_lines_str;

pub mod chain_spec;
pub mod dev_cli;
pub mod install;
pub mod omni_node;
pub mod os_check;
pub mod polkadot_sdk;
pub mod runner;
pub mod serve;
pub mod solochain;
pub mod template;
pub mod text;
pub mod zombienet;

verus! {

/// What the line search looks for, where, and whether the case of
/// letters matters.
pub struct Config {
    pub query: String,
    pub filename: String,
    pub case_sensitive: bool,
}

impl Config {
    /// Build a configuration from the raw argument list: the first
    /// argument after the program name is the query and the second the
    /// file name.  A shorter list is reported as an error.  Case
    /// sensitivity is decided by the caller's environment and handed in
    /// explicitly.
    pub fn new(args: &[String], case_sensitive: bool) -> (r: Result<Config, &'static str>)
        ensures
            args@.len() >= 3 ==> (r matches Ok(c) && c.query@ == args@[1]@ && c.filename@
                == args@[2]@ && c.case_sensitive == case_sensitive),
            args@.len() < 3 ==> (r matches Err(m) && m@ == "Not enough arguments"@),
    {
        if args.len() < 3 {
            return Err("Not enough arguments");
        }
        let query = args[1].clone();
        let filename = args[2].clone();
        Ok(Config { query, filename, case_sensitive })
    }
}

/// The lines of `contents` that contain `query`, in order.
pub fn search(query: &str, contents: &str) -> (r: Vec<String>)
    ensures
        r.deep_view() == split_lines(contents@).filter(|l: Seq<char>| contains_seq(l, query@)),
{
    let ghost pred = |l: Seq<char>| contains_seq(l, query@);
    let lines = split_lines_str(contents);
    let mut r: Vec<String> = Vec::new();
    proof {
        reveal(Seq::filter);
        assert(r.deep_view() =~= lines.deep_view().take(0).filter(pred));
    }
    let mut i: usize = 0;
    while i < lines.len()
        invariant
            lines.deep_view().len() == lines.len(),
            lines.deep_view() == split_lines(contents@),
            i <= lines.len(),
            pred =~= (|l: Seq<char>| contains_seq(l, query@)),
            r.deep_view() == lines.deep_view().take(i as int).filter(pred),
        decreases lines.len() - i,
    {
        let ghost prefix = lines.deep_view().take(i as int);
        if contains_str(lines[i].as_str(), query) {
            r.push(lines[i].clone());
        }
        proof {
            lemma_filter_push(prefix, lines.deep_view()[i as int], pred);
            assert(lines.deep_view().take(i + 1) =~= prefix.push(lines.deep_view()[i as int]));
            assert(r.deep_view() =~= lines.deep_view().take(i + 1).filter(pred));
        }
        i += 1;
    }
    proof {
        assert(lines.deep_view().take(lines.len() as int) =~= lines.deep_view());
        assert(pred =~= (|l: Seq<char>| contains_seq(l, query@)));
    }
    r
}

/// The lines of `contents` that contain `query` with the case of letters
/// disregarded: a line matches when its lowercase form contains the
/// lowercase form of the query.
pub fn search_case_insensitive(query: &str, contents: &str) -> (r: Vec<String>)
    ensures
        r.deep_view() == split_lines(contents@).filter(
            |l: Seq<char>| contains_seq(lower_of(l), lower_of(query@)),
        ),
{
    let ghost pred = |l: Seq<char>| contains_seq(lower_of(l), lower_of(query@));
    let query_lower = lowercase(query);
    let lines = split_lines_str(contents);
    let mut r: Vec<String> = Vec::new();
    proof {
        reveal(Seq::filter);
        assert(r.deep_view() =~= lines.deep_view().take(0).filter(pred));
    }
    let mut i: usize = 0;
    while i < lines.len()
        invariant
            lines.deep_view().len() == lines.len(),
            lines.deep_view() == split_lines(contents@),
            query_lower@ == lower_of(query@),
            i <= lines.len(),
            pred =~= (|l: Seq<char>| contains_seq(lower_of(l), lower_of(query@))),
            r.deep_view() == lines.deep_view().take(i as int).filter(pred),
        decreases lines.len() - i,
    {
        let ghost prefix = lines.deep_view().take(i as int);
        let line_lower = lowercase(lines[i].as_str());
        if contains_str(line_lower.as_str(), query_lower.as_str()) {
            r.push(lines[i].clone());
        }
        proof {
            lemma_filter_push(prefix, lines.deep_view()[i as int], pred);
            assert(lines.deep_view().take(i + 1) =~= prefix.push(lines.deep_view()[i as int]));
            assert(r.deep_view() =~= lines.deep_view().take(i + 1).filter(pred));
        }
        i += 1;
    }
    proof {
        assert(lines.deep_view().take(lines.len() as int) =~= lines.deep_view());
        assert(pred =~= (|l: Seq<char>| contains_seq(lower_of(l), lower_of(query@))));
    }
    r
}

} // verus!

