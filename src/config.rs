use vstd::prelude::*;

use crate::lines::str_views;
use crate::search::{matching_lines, matching_lines_folded, search, search_case_insensitive};
use crate::text::chars_of;

verus! {

/// Message of the error when no query follows the program name.
pub const MISSING_QUERY: &'static str = "get query string error";

/// Message of the error when no file path follows the query.
pub const MISSING_FILE_PATH: &'static str = "get file path error";

/// Case folding is on exactly when the switch is set to the one character `1`.
pub open spec fn switch_on(value: Option<Seq<char>>) -> bool {
    value == Some(seq!['1'])
}

/// What a switch read as an optional string holds.
pub open spec fn option_view(value: Option<String>) -> Option<Seq<char>> {
    match value {
        Some(s) => Some(s@),
        None => None,
    }
}

/// The run parameters: what to look for, where, and whether to fold case.
pub struct Config {
    pub query: String,
    pub file_path: String,
    pub ignore_case: bool,
}

/// Whether a value of the ignore-case switch turns case folding on: only the exact text `1` does.
pub fn ignore_case_from(value: Option<&str>) -> (r: bool)
    ensures
        r == switch_on(
            match value {
                Some(s) => Some(s@),
                None => None,
            },
        ),
{
    match value {
        Some(s) => {
            let cs = chars_of(s);
            let on = cs.len() == 1 && cs[0] == '1';
            proof {
                if on {
                    assert(s@ =~= seq!['1']);
                }
            }
            on
        },
        None => false,
    }
}

impl Config {
    /// Builds the run parameters from the program's arguments, program name first.
    ///
    /// The switch is read through `ignore_case_var` only once both arguments are there.
    pub fn build<F: FnOnce() -> Option<String>>(args: Vec<String>, ignore_case_var: F) -> (r:
        Result<Config, &'static str>)
        requires
            ignore_case_var.requires(()),
        ensures
            args@.len() < 2 ==> r is Err && r->Err_0@ == MISSING_QUERY@,
            args@.len() == 2 ==> r is Err && r->Err_0@ == MISSING_FILE_PATH@,
            args@.len() > 2 ==> r is Ok,
            r is Ok ==> {
                &&& r->Ok_0.query@ == args@[1]@
                &&& r->Ok_0.file_path@ == args@[2]@
                &&& exists|v: Option<String>|
                    ignore_case_var.ensures((), v) && r->Ok_0.ignore_case == switch_on(
                        option_view(v),
                    )
            },
    {
        if args.len() < 2 {
            return Err(MISSING_QUERY);
        }
        if args.len() < 3 {
            return Err(MISSING_FILE_PATH);
        }
        let query = args[1].clone();
        let file_path = args[2].clone();
        let value = ignore_case_var();
        let ignore_case = match &value {
            Some(s) => ignore_case_from(Some(s.as_str())),
            None => ignore_case_from(None),
        };
        assert(ignore_case_var.ensures((), value) && ignore_case == switch_on(option_view(value)));
        Ok(Config { query, file_path, ignore_case })
    }
}

/// The lines of `contents` that the run described by `config` prints, in order:
/// case-folded matches when `ignore_case` is set, exact matches otherwise.
pub fn select_lines<'a>(config: &Config, contents: &'a str) -> (r: Vec<&'a str>)
    ensures
        config.ignore_case ==> str_views(r@) == matching_lines_folded(config.query@, contents@),
        !config.ignore_case ==> str_views(r@) == matching_lines(config.query@, contents@),
{
    if config.ignore_case {
        search_case_insensitive(config.query.as_str(), contents)
    } else {
        search(config.query.as_str(), contents)
    }
}

} // verus!
