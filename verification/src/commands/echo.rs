//! `echo`: joins its arguments with single spaces; renders a blank line
//! when there are none.

use crate::commands::{Outcome, Output};
use crate::strutil::join_spaces;
use vstd::prelude::*;

verus! {

pub struct Echo;

impl Echo {
    /// What `echo` renders for the given arguments.
    pub open spec fn run_post(args: Seq<Seq<char>>, r: Outcome) -> bool {
        &&& !r.clear_screen
        &&& r.theme is None
        &&& if args.len() == 0 {
            r.output == Some(Output::Blank)
        } else {
            r.output matches Some(Output::Text(t)) && t@ == join_spaces(args)
        }
    }

    pub fn run(args: Vec<String>) -> (r: Outcome)
        ensures
            Self::run_post(args.deep_view(), r),
    {
        if args.len() == 0 {
            Outcome { output: Some(Output::Blank), clear_screen: false, theme: None }
        } else {
            let joined = crate::strutil::join_spaces_vec(&args);
            Outcome { output: Some(Output::Text(joined)), clear_screen: false, theme: None }
        }
    }

    /// For any argument text, `echo` renders that text verbatim: the
    /// dispatcher splits it on spaces, and joining the pieces with single
    /// spaces restores it.
    pub proof fn lemma_renders_argument_text(rest: Seq<char>, r: Outcome)
        requires
            Self::run_post(crate::strutil::split_spaces(rest), r),
        ensures
            r.output matches Some(Output::Text(t)) && t@ == rest,
    {
        crate::strutil::lemma_split_nonempty(rest);
        crate::strutil::lemma_join_split(rest);
    }
}

} // verus!
