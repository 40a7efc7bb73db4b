//! The color themes the interface can wear, and the random pick behind the
//! bare `theme` command.

use vstd::prelude::*;

verus! {

/// The available themes, in declaration order.
#[derive(Debug, Clone, Copy, PartialEq, Eq, Structural)]
pub enum Theme {
    Catppuccin,
    Dracula,
    Everforest,
    GithubDark,
    GithubLight,
    Houston,
    Kanagawa,
    Nord,
    Precious,
    RosePine,
    TokyoNight,
}

/// Relies on fastrand::usize: a value drawn from `0 .. n`, which its source
/// keeps within the range whenever the range is non-empty.
#[verifier::external_body]
fn random_index(n: usize) -> (r: usize)
    requires
        n >= 1,
    ensures
        r < n,
{
    fastrand::usize(..n)
}

impl Theme {
    /// The theme's kebab-case name.
    pub open spec fn name_spec(self) -> Seq<char> {
        match self {
            Theme::Catppuccin => "catppuccin"@,
            Theme::Dracula => "dracula"@,
            Theme::Everforest => "everforest"@,
            Theme::GithubDark => "github-dark"@,
            Theme::GithubLight => "github-light"@,
            Theme::Houston => "houston"@,
            Theme::Kanagawa => "kanagawa"@,
            Theme::Nord => "nord"@,
            Theme::Precious => "precious"@,
            Theme::RosePine => "rose-pine"@,
            Theme::TokyoNight => "tokyo-night"@,
        }
    }

    pub fn name(self) -> (r: &'static str)
        ensures
            r@ == self.name_spec(),
    {
        match self {
            Theme::Catppuccin => "catppuccin",
            Theme::Dracula => "dracula",
            Theme::Everforest => "everforest",
            Theme::GithubDark => "github-dark",
            Theme::GithubLight => "github-light",
            Theme::Houston => "houston",
            Theme::Kanagawa => "kanagawa",
            Theme::Nord => "nord",
            Theme::Precious => "precious",
            Theme::RosePine => "rose-pine",
            Theme::TokyoNight => "tokyo-night",
        }
    }

    /// All themes, in declaration order.
    pub open spec fn all_spec() -> Seq<Theme> {
        seq![
            Theme::Catppuccin,
            Theme::Dracula,
            Theme::Everforest,
            Theme::GithubDark,
            Theme::GithubLight,
            Theme::Houston,
            Theme::Kanagawa,
            Theme::Nord,
            Theme::Precious,
            Theme::RosePine,
            Theme::TokyoNight,
        ]
    }

    pub fn all() -> (r: Vec<Theme>)
        ensures
            r@ == Theme::all_spec(),
    {
        let mut v: Vec<Theme> = Vec::new();
        v.push(Theme::Catppuccin);
        v.push(Theme::Dracula);
        v.push(Theme::Everforest);
        v.push(Theme::GithubDark);
        v.push(Theme::GithubLight);
        v.push(Theme::Houston);
        v.push(Theme::Kanagawa);
        v.push(Theme::Nord);
        v.push(Theme::Precious);
        v.push(Theme::RosePine);
        v.push(Theme::TokyoNight);
        proof {
            assert(v@ =~= Theme::all_spec());
        }
        v
    }

    /// The theme names, in declaration order.
    pub fn variants() -> (r: Vec<&'static str>)
        ensures
            r.deep_view() == Theme::all_spec().map_values(|t: Theme| t.name_spec()),
    {
        let all = Theme::all();
        let mut v: Vec<&'static str> = Vec::new();
        let mut i: usize = 0;
        while i < all.len()
            invariant
                i <= all@.len(),
                all@ == Theme::all_spec(),
                v.deep_view() =~= all@.subrange(0, i as int).map_values(|t: Theme| t.name_spec()),
            decreases all@.len() - i,
        {
            let ghost pre = v.deep_view();
            v.push(all[i].name());
            proof {
                assert(v.deep_view() =~= pre.push(all@[i as int].name_spec()));
                assert(all@.subrange(0, i + 1).map_values(|t: Theme| t.name_spec()) =~= all@
                    .subrange(0, i as int)
                    .map_values(|t: Theme| t.name_spec())
                    .push(all@[i as int].name_spec()));
            }
            i += 1;
        }
        proof {
            assert(all@.subrange(0, all@.len() as int) =~= all@);
        }
        v
    }

    /// Resolves a theme name; `None` exactly when no theme has that name.
    pub fn parse(s: &str) -> (r: Option<Theme>)
        ensures
            r matches Some(t) ==> s@ == t.name_spec(),
            r is None ==> forall|t: Theme| s@ != t.name_spec(),
    {
        if crate::strutil::str_eq(s, "catppuccin") {
            Some(Theme::Catppuccin)
        } else if crate::strutil::str_eq(s, "dracula") {
            Some(Theme::Dracula)
        } else if crate::strutil::str_eq(s, "everforest") {
            Some(Theme::Everforest)
        } else if crate::strutil::str_eq(s, "github-dark") {
            Some(Theme::GithubDark)
        } else if crate::strutil::str_eq(s, "github-light") {
            Some(Theme::GithubLight)
        } else if crate::strutil::str_eq(s, "houston") {
            Some(Theme::Houston)
        } else if crate::strutil::str_eq(s, "kanagawa") {
            Some(Theme::Kanagawa)
        } else if crate::strutil::str_eq(s, "nord") {
            Some(Theme::Nord)
        } else if crate::strutil::str_eq(s, "precious") {
            Some(Theme::Precious)
        } else if crate::strutil::str_eq(s, "rose-pine") {
            Some(Theme::RosePine)
        } else if crate::strutil::str_eq(s, "tokyo-night") {
            Some(Theme::TokyoNight)
        } else {
            None
        }
    }

    /// A random theme other than the current one, drawn uniformly from the
    /// rest.
    pub fn random_except(current: Theme) -> (r: Theme)
        ensures
            r != current,
    {
        let all = Theme::all();
        let mut others: Vec<Theme> = Vec::new();
        let mut i: usize = 0;
        while i < all.len()
            invariant
                i <= all@.len(),
                all@ == Theme::all_spec(),
                forall|k: int| 0 <= k < others@.len() ==> others@[k] != current,
                others@.len() >= i - 1,
                (forall|k: int| 0 <= k < i ==> all@[k] != current) ==> others@.len() == i,
            decreases all@.len() - i,
        {
            if all[i] != current {
                others.push(all[i]);
            } else {
                proof {
                    assert forall|k: int| 0 <= k < i implies all@[k] != current by {
                        assert(Theme::all_spec()[k] != Theme::all_spec()[i as int]);
                    }
                }
            }
            i += 1;
        }
        let idx = random_index(others.len());
        others[idx]
    }
}

} // verus!
