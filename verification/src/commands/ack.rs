//! `ack`: renders the static acknowledgements text.

use crate::commands::{renders, Outcome, Output};
use vstd::prelude::*;

verus! {

pub struct Ack;

impl Ack {
    pub fn run(args: Vec<String>) -> (r: Outcome)
        ensures
            renders(r, Output::Ack),
    {
        let _ = args;
        Outcome { output: Some(Output::Ack), clear_screen: false, theme: None }
    }
}

} // verus!
