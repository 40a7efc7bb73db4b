//! `clear`: renders nothing; its whole effect is to empty the transcript
//! buffer and hide the banner.

use crate::commands::Outcome;
use vstd::prelude::*;

verus! {

pub struct Clear;

impl Clear {
    pub fn run(args: Vec<String>) -> (r: Outcome)
        ensures
            r.output is None,
            r.clear_screen,
            r.theme is None,
    {
        let _ = args;
        Outcome { output: None, clear_screen: true, theme: None }
    }
}

} // verus!
