//! `fetch`: renders the static profile summary drawn from the
//! configuration.

use crate::commands::{renders, Outcome, Output};
use vstd::prelude::*;

verus! {

pub struct Fetch;

impl Fetch {
    pub fn run(args: Vec<String>) -> (r: Outcome)
        ensures
            renders(r, Output::Fetch),
    {
        let _ = args;
        Outcome { output: Some(Output::Fetch), clear_screen: false, theme: None }
    }
}

} // verus!
