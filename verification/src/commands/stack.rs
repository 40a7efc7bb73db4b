//! `stack`: renders the static technology listing drawn from the
//! configuration.

use crate::commands::{renders, Outcome, Output};
use vstd::prelude::*;

verus! {

pub struct Stack;

impl Stack {
    pub fn run(args: Vec<String>) -> (r: Outcome)
        ensures
            renders(r, Output::Stack),
    {
        let _ = args;
        Outcome { output: Some(Output::Stack), clear_screen: false, theme: None }
    }
}

} // verus!
