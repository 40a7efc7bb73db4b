//! `theme`: picks a random other theme, selects a named one, or lists the
//! available names; unknown names and flags are rendered as errors.

use crate::commands::{Outcome, Output, Palette};
use crate::theme::Theme as ThemeChoice;
use vstd::prelude::*;
use vstd::string::{StrSliceExecFns, StringExecFns};

verus! {

pub struct Theme;

impl Theme {
    /// What `theme` renders and selects for the given arguments. Without
    /// arguments the selected theme is random, so only its difference from
    /// the current one is promised.
    pub open spec fn run_post(args: Seq<Seq<char>>, current: ThemeChoice, r: Outcome) -> bool {
        &&& !r.clear_screen
        &&& if args.len() == 0 {
            r.output matches Some(Output::ThemeSelected(t)) && t != current && r.theme == Some(t)
        } else {
            let opt = args[0];
            if opt == "-l"@ || opt == "--list"@ {
                r.output == Some(Output::ThemeList) && r.theme is None
            } else if opt.len() > 0 && opt[0] == '-' {
                r.output matches Some(Output::UnexpectedOption { flag, usage }) && flag@ == opt
                    && usage@ == Palette::Theme.usage_spec() && r.theme is None
            } else if exists|t: ThemeChoice| opt == t.name_spec() {
                r.output matches Some(Output::ThemeSelected(t)) && opt == t.name_spec()
                    && r.theme == Some(t)
            } else {
                r.output matches Some(Output::ThemeUnsupported { name }) && name@ == opt
                    && r.theme is None
            }
        }
    }

    pub fn run(args: Vec<String>, current: ThemeChoice) -> (r: Outcome)
        ensures
            Self::run_post(args.deep_view(), current, r),
    {
        if args.len() == 0 {
            let selected = ThemeChoice::random_except(current);
            return Outcome {
                output: Some(Output::ThemeSelected(selected)),
                clear_screen: false,
                theme: Some(selected),
            };
        }
        let opt = &args[0];
        proof {
            assert(args.deep_view()[0] == args@[0]@);
        }
        let opt_str = opt.as_str();
        if opt_str.unicode_len() > 0 && opt_str.get_char(0) == '-' {
            if crate::strutil::str_eq(opt_str, "-l") || crate::strutil::str_eq(opt_str, "--list") {
                return Outcome {
                    output: Some(Output::ThemeList),
                    clear_screen: false,
                    theme: None,
                };
            }
            return Outcome {
                output: Some(
                    Output::UnexpectedOption { flag: opt.clone(), usage: Palette::Theme.usage() },
                ),
                clear_screen: false,
                theme: None,
            };
        }
        proof {
            reveal_strlit("-l");
            reveal_strlit("--list");
        }
        match ThemeChoice::parse(opt_str) {
            Some(t) => Outcome {
                output: Some(Output::ThemeSelected(t)),
                clear_screen: false,
                theme: Some(t),
            },
            None => Outcome {
                output: Some(Output::ThemeUnsupported { name: opt.clone() }),
                clear_screen: false,
                theme: None,
            },
        }
    }

    /// The completions `theme` offers: its list flags, then itself applied
    /// to every theme name.
    pub open spec fn suggest_spec() -> Seq<Seq<char>> {
        seq!["theme -l"@, "theme --list"@] + ThemeChoice::all_spec().map_values(
            |t: ThemeChoice| "theme "@ + t.name_spec(),
        )
    }

    pub fn suggest() -> (r: Vec<String>)
        ensures
            r.deep_view() == Theme::suggest_spec(),
    {
        let mut v: Vec<String> = Vec::new();
        v.push(String::from_str("theme -l"));
        v.push(String::from_str("theme --list"));
        let all = ThemeChoice::all();
        let mut i: usize = 0;
        while i < all.len()
            invariant
                i <= all@.len(),
                all@ == ThemeChoice::all_spec(),
                v.deep_view() =~= seq!["theme -l"@, "theme --list"@] + all@.subrange(
                    0,
                    i as int,
                ).map_values(|t: ThemeChoice| "theme "@ + t.name_spec()),
            decreases all@.len() - i,
        {
            let ghost pre = v.deep_view();
            let mut s = String::from_str("theme ");
            s.append(all[i].name());
            v.push(s);
            proof {
                assert(v.deep_view() =~= pre.push("theme "@ + all@[i as int].name_spec()));
                assert(all@.subrange(0, i + 1).map_values(
                    |t: ThemeChoice| "theme "@ + t.name_spec(),
                ) =~= all@.subrange(0, i as int).map_values(
                    |t: ThemeChoice| "theme "@ + t.name_spec(),
                ).push("theme "@ + all@[i as int].name_spec()));
                assert(pre.push("theme "@ + all@[i as int].name_spec()) =~= seq![
                    "theme -l"@,
                    "theme --list"@,
                ] + all@.subrange(0, i + 1).map_values(
                    |t: ThemeChoice| "theme "@ + t.name_spec(),
                ));
            }
            i += 1;
        }
        proof {
            assert(all@.subrange(0, all@.len() as int) =~= all@);
        }
        v
    }
}

} // verus!
