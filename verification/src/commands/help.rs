//! `help`: the full command and keybinding overview, or one command's
//! usage, or an error naming the valid commands.

use crate::commands::{Outcome, Output, Palette};
use vstd::prelude::*;
use vstd::string::StringExecFns;

verus! {

pub struct Help;

impl Help {
    /// What `help` renders: the overview without arguments, a command's
    /// help for a registered name, and an error for anything else.
    pub open spec fn run_post(args: Seq<Seq<char>>, r: Outcome) -> bool {
        &&& !r.clear_screen
        &&& r.theme is None
        &&& if args.len() == 0 {
            r.output == Some(Output::HelpOverview)
        } else {
            let topic = args[0];
            if exists|p: Palette| topic == p.name_spec() {
                r.output matches Some(Output::HelpCommand(p)) && topic == p.name_spec()
            } else {
                r.output matches Some(Output::HelpUnknown { topic: t }) && t@ == topic
            }
        }
    }

    pub fn run(args: Vec<String>) -> (r: Outcome)
        ensures
            Self::run_post(args.deep_view(), r),
    {
        if args.len() == 0 {
            Outcome { output: Some(Output::HelpOverview), clear_screen: false, theme: None }
        } else {
            let topic = &args[0];
            proof {
                assert(args.deep_view()[0] == args@[0]@);
            }
            match Palette::parse(topic.as_str()) {
                Some(p) => Outcome {
                    output: Some(Output::HelpCommand(p)),
                    clear_screen: false,
                    theme: None,
                },
                None => Outcome {
                    output: Some(Output::HelpUnknown { topic: topic.clone() }),
                    clear_screen: false,
                    theme: None,
                },
            }
        }
    }

    /// The completions `help` offers: itself applied to every command.
    pub open spec fn suggest_spec() -> Seq<Seq<char>> {
        Palette::all_spec().map_values(|p: Palette| "help "@ + p.name_spec())
    }

    pub fn suggest() -> (r: Vec<String>)
        ensures
            r.deep_view() == Help::suggest_spec(),
    {
        let all = Palette::all();
        let mut v: Vec<String> = Vec::new();
        let mut i: usize = 0;
        while i < all.len()
            invariant
                i <= all@.len(),
                all@ == Palette::all_spec(),
                v.deep_view() =~= all@.subrange(0, i as int).map_values(
                    |p: Palette| "help "@ + p.name_spec(),
                ),
            decreases all@.len() - i,
        {
            let ghost pre = v.deep_view();
            let mut s = String::from_str("help ");
            s.append(all[i].name());
            v.push(s);
            proof {
                assert(v.deep_view() =~= pre.push("help "@ + all@[i as int].name_spec()));
                assert(all@.subrange(0, i + 1).map_values(|p: Palette| "help "@ + p.name_spec())
                    =~= all@.subrange(0, i as int).map_values(
                    |p: Palette| "help "@ + p.name_spec(),
                ).push("help "@ + all@[i as int].name_spec()));
            }
            i += 1;
        }
        proof {
            assert(all@.subrange(0, all@.len() as int) =~= all@);
        }
        v
    }
}

} // verus!
