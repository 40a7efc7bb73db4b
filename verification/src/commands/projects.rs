//! `projects`: the asynchronously fetched repository listing. The handler
//! only settles the output format; the fetch itself is an external
//! collaborator, and its result is merged with the configured unreleased
//! projects by `merge_repos`.

use crate::commands::{Format, Outcome, Output, Palette};
use crate::config::{Github, InProgress};
use vstd::prelude::*;
use vstd::string::{StrSliceExecFns, StringExecFns};

verus! {

pub struct Projects;

impl Projects {
    /// What `projects` renders for the given arguments.
    pub open spec fn run_post(args: Seq<Seq<char>>, r: Outcome) -> bool {
        &&& !r.clear_screen
        &&& r.theme is None
        &&& if args.len() == 0 {
            r.output == Some(Output::Projects(Format::Table))
        } else {
            let opt = args[0];
            if opt == "-j"@ || opt == "--json"@ {
                r.output == Some(Output::Projects(Format::Json))
            } else if opt.len() > 0 && opt[0] == '-' {
                r.output matches Some(Output::UnexpectedOption { flag, usage }) && flag@ == opt
                    && usage@ == Palette::Projects.usage_spec()
            } else {
                r.output == Some(Output::Projects(Format::Table))
            }
        }
    }

    pub fn run(args: Vec<String>) -> (r: Outcome)
        ensures
            Self::run_post(args.deep_view(), r),
    {
        if args.len() == 0 {
            return Outcome {
                output: Some(Output::Projects(Format::Table)),
                clear_screen: false,
                theme: None,
            };
        }
        let opt = &args[0];
        proof {
            assert(args.deep_view()[0] == args@[0]@);
        }
        let opt_str = opt.as_str();
        if crate::strutil::str_eq(opt_str, "-j") || crate::strutil::str_eq(opt_str, "--json") {
            return Outcome {
                output: Some(Output::Projects(Format::Json)),
                clear_screen: false,
                theme: None,
            };
        }
        if opt_str.unicode_len() > 0 && opt_str.get_char(0) == '-' {
            return Outcome {
                output: Some(
                    Output::UnexpectedOption {
                        flag: opt.clone(),
                        usage: Palette::Projects.usage(),
                    },
                ),
                clear_screen: false,
                theme: None,
            };
        }
        proof {
            reveal_strlit("-j");
            reveal_strlit("--json");
        }
        Outcome { output: Some(Output::Projects(Format::Table)), clear_screen: false, theme: None }
    }

    /// The completions `projects` offers: its format flags.
    pub open spec fn suggest_spec() -> Seq<Seq<char>> {
        seq!["projects -j"@, "projects --json"@]
    }

    pub fn suggest() -> (r: Vec<String>)
        ensures
            r.deep_view() == Projects::suggest_spec(),
    {
        let mut v: Vec<String> = Vec::new();
        v.push(String::from_str("projects -j"));
        v.push(String::from_str("projects --json"));
        proof {
            assert(v.deep_view() =~= Projects::suggest_spec());
        }
        v
    }
}

/// A released repository, as the listing endpoint reports it.
#[derive(Debug)]
pub struct Released {
    pub name: String,
    pub description: Option<String>,
    pub html_url: String,
    pub stargazers_count: usize,
    pub language: Option<String>,
    pub forks: usize,
}

impl Clone for Released {
    fn clone(&self) -> (r: Self)
        ensures
            r == *self,
    {
        Released {
            name: self.name.clone(),
            description: match &self.description {
                Some(d) => Some(d.clone()),
                None => None,
            },
            html_url: self.html_url.clone(),
            stargazers_count: self.stargazers_count,
            language: match &self.language {
                Some(l) => Some(l.clone()),
                None => None,
            },
            forks: self.forks,
        }
    }
}

/// One row of the projects listing: a released repository or a configured
/// work in progress.
#[derive(Debug)]
pub enum Repository {
    Public { released: Released },
    Private { in_progress: InProgress },
}

/// The released repositories that the listing keeps: all of them when the
/// configured name list is empty, otherwise only those named there.
pub open spec fn kept_repos(fetched: Seq<Released>, names: Seq<Seq<char>>) -> Seq<Released>
    decreases fetched.len(),
{
    if names.len() == 0 {
        fetched
    } else if fetched.len() == 0 {
        Seq::empty()
    } else {
        let front = kept_repos(fetched.drop_last(), names);
        if names.contains(fetched.last().name@) {
            front.push(fetched.last())
        } else {
            front
        }
    }
}

/// Whether any of `names` reads `s`.
fn contains_name(names: &Vec<String>, s: &str) -> (r: bool)
    ensures
        r == names.deep_view().contains(s@),
{
    let mut i: usize = 0;
    while i < names.len()
        invariant
            i <= names@.len(),
            forall|k: int| 0 <= k < i ==> names.deep_view()[k] != s@,
        decreases names@.len() - i,
    {
        if crate::strutil::str_eq(names[i].as_str(), s) {
            proof {
                assert(names.deep_view()[i as int] == s@);
            }
            return true;
        }
        i += 1;
    }
    proof {
        assert forall|k: int| 0 <= k < names.deep_view().len() implies names.deep_view()[k]
            != s@ by {}
    }
    false
}

/// Merges the fetched repositories with the configuration: released ones
/// are filtered by the configured name list when it is non-empty, and the
/// configured in-progress projects are appended after them.
pub fn merge_repos(fetched: Vec<Released>, github: &Github) -> (r: Vec<Repository>)
    ensures
        r@ == kept_repos(fetched@, github.repos.deep_view()).map_values(
            |rel: Released| Repository::Public { released: rel },
        ) + github.in_progress@.map_values(
            |ip: InProgress| Repository::Private { in_progress: ip },
        ),
{
    let mut out: Vec<Repository> = Vec::new();
    let filter = github.repos.len() > 0;
    let mut i: usize = 0;
    while i < fetched.len()
        invariant
            i <= fetched@.len(),
            filter == (github.repos.deep_view().len() > 0),
            out@ =~= kept_repos(fetched@.subrange(0, i as int), github.repos.deep_view())
                .map_values(|rel: Released| Repository::Public { released: rel }),
        decreases fetched@.len() - i,
    {
        let ghost pre = out@;
        let keep = if filter {
            contains_name(&github.repos, fetched[i].name.as_str())
        } else {
            true
        };
        if keep {
            out.push(Repository::Public { released: fetched[i].clone() });
        }
        proof {
            let names = github.repos.deep_view();
            let step = fetched@.subrange(0, i + 1);
            assert(step.drop_last() =~= fetched@.subrange(0, i as int));
            assert(step.last() == fetched@[i as int]);
            if names.len() == 0 {
                assert(step =~= kept_repos(step, names));
                assert(fetched@.subrange(0, i as int) =~= kept_repos(
                    fetched@.subrange(0, i as int),
                    names,
                ));
            }
            assert(out@ =~= kept_repos(step, names).map_values(
                |rel: Released| Repository::Public { released: rel },
            ));
        }
        i += 1;
    }
    proof {
        assert(fetched@.subrange(0, fetched@.len() as int) =~= fetched@);
    }
    let mut j: usize = 0;
    let ghost kept = out@;
    while j < github.in_progress.len()
        invariant
            j <= github.in_progress@.len(),
            out@ =~= kept + github.in_progress@.subrange(0, j as int).map_values(
                |ip: InProgress| Repository::Private { in_progress: ip },
            ),
        decreases github.in_progress@.len() - j,
    {
        let ghost pre = out@;
        out.push(Repository::Private { in_progress: github.in_progress[j].clone() });
        proof {
            assert(github.in_progress@.subrange(0, j + 1).map_values(
                |ip: InProgress| Repository::Private { in_progress: ip },
            ) =~= github.in_progress@.subrange(0, j as int).map_values(
                |ip: InProgress| Repository::Private { in_progress: ip },
            ).push(Repository::Private { in_progress: github.in_progress@[j as int] }));
            assert(out@ =~= kept + github.in_progress@.subrange(0, j + 1).map_values(
                |ip: InProgress| Repository::Private { in_progress: ip },
            ));
        }
        j += 1;
    }
    proof {
        assert(github.in_progress@.subrange(0, github.in_progress@.len() as int)
            =~= github.in_progress@);
    }
    out
}

} // verus!
