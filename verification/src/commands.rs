//! The command registry: the fixed set of commands, their metadata, and the
//! render payloads their handlers produce.

use crate::theme::Theme as ThemeChoice;
use vstd::prelude::*;

pub mod ack;
pub mod clear;
pub mod echo;
pub mod fetch;
pub mod help;
pub mod projects;
pub mod stack;
pub mod theme;

verus! {

/// How the projects listing is rendered.
#[derive(Debug, Clone, Copy, PartialEq, Eq, Structural)]
pub enum Format {
    Table,
    Json,
}

/// What a dispatched line asks the interface to render.
#[derive(Debug, PartialEq, Eq)]
pub enum Output {
    /// A blank line.
    Blank,
    /// A plain line of text.
    Text(String),
    /// An unknown command name, shown with a hint to try `help`.
    NotFound { cmd: String },
    /// An unexpected flag, shown with the command's usage text.
    UnexpectedOption { flag: String, usage: &'static str },
    /// The full command and keybinding listing.
    HelpOverview,
    /// One command's help entry.
    HelpCommand(Palette),
    /// An unknown help topic, shown with the valid command names.
    HelpUnknown { topic: String },
    /// The list of available themes.
    ThemeList,
    /// An unknown theme name, shown with the valid theme names.
    ThemeUnsupported { name: String },
    /// Confirmation of a newly selected theme.
    ThemeSelected(ThemeChoice),
    /// The static profile summary.
    Fetch,
    /// The static acknowledgements text.
    Ack,
    /// The static tech-stack listing.
    Stack,
    /// The projects listing, fetched asynchronously, in the chosen format.
    Projects(Format),
}

/// The plain-text rendering of the message-like outputs; `None` for the
/// payloads that the view layer renders richly.
pub open spec fn message_spec(o: Output) -> Option<Seq<char>> {
    match o {
        Output::Blank => Some(Seq::<char>::empty()),
        Output::Text(t) => Some(t@),
        Output::NotFound { cmd } => Some(
            "command not found: "@ + cmd@ + "\ntry help to get a list of available commands"@,
        ),
        Output::UnexpectedOption { flag, usage } => Some(
            "unexpected flag: "@ + flag@ + "\nUsage:\n"@ + usage@,
        ),
        Output::HelpCommand(p) => Some(
            p.name_spec() + " - "@ + p.description_spec() + "\nUsage:\n"@ + p.usage_spec(),
        ),
        Output::HelpUnknown { topic } => Some(
            "command '"@ + topic@ + "' is not supported\navailable commands: "@
                + crate::strutil::join_with(
                Palette::all_spec().map_values(|p: Palette| p.name_spec()),
                ", "@,
            ),
        ),
        Output::ThemeList => Some(
            "available themes: "@ + crate::strutil::join_with(
                ThemeChoice::all_spec().map_values(|t: ThemeChoice| t.name_spec()),
                ", "@,
            ),
        ),
        Output::ThemeUnsupported { name } => Some(
            "theme '"@ + name@ + "' is not supported\navailable themes: "@
                + crate::strutil::join_with(
                ThemeChoice::all_spec().map_values(|t: ThemeChoice| t.name_spec()),
                ", "@,
            ),
        ),
        Output::ThemeSelected(t) => Some("theme '"@ + t.name_spec() + "' selected"@),
        _ => None,
    }
}

impl Output {
    /// The plain text this output renders, for the message-like payloads;
    /// `None` for those the view layer renders richly.
    pub fn message(&self) -> (r: Option<String>)
        ensures
            r is Some <==> message_spec(*self) is Some,
            r matches Some(s) ==> message_spec(*self) matches Some(m) && s@ == m,
    {
        match self {
            Output::Blank => Some(String::new()),
            Output::Text(t) => Some(t.clone()),
            Output::NotFound { cmd } => {
                let mut s = String::from_str("command not found: ");
                s.append(cmd.as_str());
                s.append("\ntry help to get a list of available commands");
                Some(s)
            },
            Output::UnexpectedOption { flag, usage } => {
                let mut s = String::from_str("unexpected flag: ");
                s.append(flag.as_str());
                s.append("\nUsage:\n");
                s.append(usage);
                Some(s)
            },
            Output::HelpCommand(p) => {
                let mut s = String::from_str((*p).name());
                s.append(" - ");
                s.append((*p).description());
                s.append("\nUsage:\n");
                s.append((*p).usage());
                Some(s)
            },
            Output::HelpUnknown { topic } => {
                let names = Palette::variants();
                let joined = crate::strutil::join_with_strs(&names, ", ");
                let mut s = String::from_str("command '");
                s.append(topic.as_str());
                s.append("' is not supported\navailable commands: ");
                s.append(joined.as_str());
                Some(s)
            },
            Output::ThemeList => {
                let names = ThemeChoice::variants();
                let joined = crate::strutil::join_with_strs(&names, ", ");
                let mut s = String::from_str("available themes: ");
                s.append(joined.as_str());
                Some(s)
            },
            Output::ThemeUnsupported { name } => {
                let names = ThemeChoice::variants();
                let joined = crate::strutil::join_with_strs(&names, ", ");
                let mut s = String::from_str("theme '");
                s.append(name.as_str());
                s.append("' is not supported\navailable themes: ");
                s.append(joined.as_str());
                Some(s)
            },
            Output::ThemeSelected(t) => {
                let mut s = String::from_str("theme '");
                s.append((*t).name());
                s.append("' selected");
                Some(s)
            },
            Output::HelpOverview => None,
            Output::Fetch => None,
            Output::Ack => None,
            Output::Stack => None,
            Output::Projects(_) => None,
        }
    }
}

/// A dispatched line's whole effect: the render payload, whether the screen
/// is cleared, and a newly selected theme, if any.
#[derive(Debug, PartialEq, Eq)]
pub struct Outcome {
    pub output: Option<Output>,
    pub clear_screen: bool,
    pub theme: Option<ThemeChoice>,
}

/// An outcome that renders `o` and changes nothing else.
pub open spec fn renders(r: Outcome, o: Output) -> bool {
    &&& r.output == Some(o)
    &&& !r.clear_screen
    &&& r.theme is None
}

/// One command's metadata, as the help views show it.
#[derive(Debug, Clone, Copy)]
pub struct HelpEntry {
    pub name: &'static str,
    pub description: &'static str,
    pub usage: &'static str,
}

/// The fixed command registry.
#[derive(Debug, Clone, Copy, PartialEq, Eq, Structural)]
pub enum Palette {
    Ack,
    Clear,
    Echo,
    Fetch,
    Help,
    Projects,
    Stack,
    Theme,
}

impl Palette {
    /// The command's name, its registry key.
    pub open spec fn name_spec(self) -> Seq<char> {
        match self {
            Palette::Ack => "ack"@,
            Palette::Clear => "clear"@,
            Palette::Echo => "echo"@,
            Palette::Fetch => "fetch"@,
            Palette::Help => "help"@,
            Palette::Projects => "projects"@,
            Palette::Stack => "stack"@,
            Palette::Theme => "theme"@,
        }
    }

    /// The command's one-line description.
    pub open spec fn description_spec(self) -> Seq<char> {
        match self {
            Palette::Ack => "see acknowledgements"@,
            Palette::Clear => "clear screen"@,
            Palette::Echo => "display a line of text"@,
            Palette::Fetch => "get a summary about me"@,
            Palette::Help => "show help message"@,
            Palette::Projects => "explore my projects"@,
            Palette::Stack => "view my tech stack"@,
            Palette::Theme => "change the theme"@,
        }
    }

    /// The command's usage text.
    pub open spec fn usage_spec(self) -> Seq<char> {
        match self {
            Palette::Ack => "\tack"@,
            Palette::Clear => "\tclear"@,
            Palette::Echo => "\techo [string]"@,
            Palette::Fetch => "\tfetch"@,
            Palette::Help => "\thelp            show the overview help\n    help [command]  show help for a specific command"@,
            Palette::Projects => "\tprojects             use table format\n    projects -j, --json  use JSON format"@,
            Palette::Stack => "\tstack"@,
            Palette::Theme => "\ttheme             pick a random theme\n    theme [name]      use the specified theme\n    theme -l, --list  list available themes"@,
        }
    }

    pub fn name(self) -> (r: &'static str)
        ensures
            r@ == self.name_spec(),
    {
        match self {
            Palette::Ack => "ack",
            Palette::Clear => "clear",
            Palette::Echo => "echo",
            Palette::Fetch => "fetch",
            Palette::Help => "help",
            Palette::Projects => "projects",
            Palette::Stack => "stack",
            Palette::Theme => "theme",
        }
    }

    pub fn description(self) -> (r: &'static str)
        ensures
            r@ == self.description_spec(),
    {
        match self {
            Palette::Ack => "see acknowledgements",
            Palette::Clear => "clear screen",
            Palette::Echo => "display a line of text",
            Palette::Fetch => "get a summary about me",
            Palette::Help => "show help message",
            Palette::Projects => "explore my projects",
            Palette::Stack => "view my tech stack",
            Palette::Theme => "change the theme",
        }
    }

    pub fn usage(self) -> (r: &'static str)
        ensures
            r@ == self.usage_spec(),
    {
        match self {
            Palette::Ack => "\tack",
            Palette::Clear => "\tclear",
            Palette::Echo => "\techo [string]",
            Palette::Fetch => "\tfetch",
            Palette::Help => "\thelp            show the overview help\n    help [command]  show help for a specific command",
            Palette::Projects => "\tprojects             use table format\n    projects -j, --json  use JSON format",
            Palette::Stack => "\tstack",
            Palette::Theme => "\ttheme             pick a random theme\n    theme [name]      use the specified theme\n    theme -l, --list  list available themes",
        }
    }

    /// The registry, in declaration order.
    pub open spec fn all_spec() -> Seq<Palette> {
        seq![
            Palette::Ack,
            Palette::Clear,
            Palette::Echo,
            Palette::Fetch,
            Palette::Help,
            Palette::Projects,
            Palette::Stack,
            Palette::Theme,
        ]
    }

    pub fn all() -> (r: Vec<Palette>)
        ensures
            r@ == Palette::all_spec(),
    {
        let mut v: Vec<Palette> = Vec::new();
        v.push(Palette::Ack);
        v.push(Palette::Clear);
        v.push(Palette::Echo);
        v.push(Palette::Fetch);
        v.push(Palette::Help);
        v.push(Palette::Projects);
        v.push(Palette::Stack);
        v.push(Palette::Theme);
        proof {
            assert(v@ =~= Palette::all_spec());
        }
        v
    }

    /// The command names, in declaration order.
    pub fn variants() -> (r: Vec<&'static str>)
        ensures
            r.deep_view() == Palette::all_spec().map_values(|p: Palette| p.name_spec()),
    {
        let all = Palette::all();
        let mut v: Vec<&'static str> = Vec::new();
        let mut i: usize = 0;
        while i < all.len()
            invariant
                i <= all@.len(),
                all@ == Palette::all_spec(),
                v.deep_view() =~= all@.subrange(0, i as int).map_values(
                    |p: Palette| p.name_spec(),
                ),
            decreases all@.len() - i,
        {
            let ghost pre = v.deep_view();
            v.push(all[i].name());
            proof {
                assert(v.deep_view() =~= pre.push(all@[i as int].name_spec()));
                assert(all@.subrange(0, i + 1).map_values(|p: Palette| p.name_spec()) =~= all@
                    .subrange(0, i as int)
                    .map_values(|p: Palette| p.name_spec())
                    .push(all@[i as int].name_spec()));
            }
            i += 1;
        }
        proof {
            assert(all@.subrange(0, all@.len() as int) =~= all@);
        }
        v
    }

    /// Resolves a command name; `None` exactly when no command has that
    /// name.
    pub fn parse(s: &str) -> (r: Option<Palette>)
        ensures
            r matches Some(p) ==> s@ == p.name_spec(),
            r is None ==> forall|p: Palette| s@ != p.name_spec(),
    {
        if crate::strutil::str_eq(s, "ack") {
            Some(Palette::Ack)
        } else if crate::strutil::str_eq(s, "clear") {
            Some(Palette::Clear)
        } else if crate::strutil::str_eq(s, "echo") {
            Some(Palette::Echo)
        } else if crate::strutil::str_eq(s, "fetch") {
            Some(Palette::Fetch)
        } else if crate::strutil::str_eq(s, "help") {
            Some(Palette::Help)
        } else if crate::strutil::str_eq(s, "projects") {
            Some(Palette::Projects)
        } else if crate::strutil::str_eq(s, "stack") {
            Some(Palette::Stack)
        } else if crate::strutil::str_eq(s, "theme") {
            Some(Palette::Theme)
        } else {
            None
        }
    }

    /// Whether `s` names a registered command.
    pub fn contains(s: &str) -> (r: bool)
        ensures
            r == exists|p: Palette| s@ == p.name_spec(),
    {
        match Palette::parse(s) {
            Some(p) => {
                proof {
                    assert(s@ == p.name_spec());
                }
                true
            },
            None => false,
        }
    }

    /// No two commands share a name.
    pub proof fn lemma_names_injective()
        ensures
            forall|p1: Palette, p2: Palette|
                p1.name_spec() == p2.name_spec() ==> p1 == p2,
    {
        reveal_strlit("ack");
        reveal_strlit("clear");
        reveal_strlit("echo");
        reveal_strlit("fetch");
        reveal_strlit("help");
        reveal_strlit("projects");
        reveal_strlit("stack");
        reveal_strlit("theme");
        assert("ack"@.len() == 3);
        assert("echo"@.len() == 4);
        assert("help"@.len() == 4);
        assert("clear"@.len() == 5);
        assert("fetch"@.len() == 5);
        assert("stack"@.len() == 5);
        assert("theme"@.len() == 5);
        assert("projects"@.len() == 8);
        assert("echo"@[0] == 'e');
        assert("help"@[0] == 'h');
        assert("clear"@[0] == 'c');
        assert("fetch"@[0] == 'f');
        assert("stack"@[0] == 's');
        assert("theme"@[0] == 't');
    }

    /// The command's name and description, as the overview listing shows
    /// them.
    pub fn one_line(self) -> (r: (&'static str, &'static str))
        ensures
            r.0@ == self.name_spec(),
            r.1@ == self.description_spec(),
    {
        (self.name(), self.description())
    }

    /// The command's full help entry.
    pub fn help(self) -> (r: HelpEntry)
        ensures
            r.name@ == self.name_spec(),
            r.description@ == self.description_spec(),
            r.usage@ == self.usage_spec(),
    {
        HelpEntry { name: self.name(), description: self.description(), usage: self.usage() }
    }

    /// What running the command renders and changes, for the given
    /// arguments.
    pub open spec fn run_post(
        self,
        args: Seq<Seq<char>>,
        current: ThemeChoice,
        r: Outcome,
    ) -> bool {
        match self {
            Palette::Ack => renders(r, Output::Ack),
            Palette::Clear => r.output is None && r.clear_screen && r.theme is None,
            Palette::Echo => echo::Echo::run_post(args, r),
            Palette::Fetch => renders(r, Output::Fetch),
            Palette::Help => help::Help::run_post(args, r),
            Palette::Projects => projects::Projects::run_post(args, r),
            Palette::Stack => renders(r, Output::Stack),
            Palette::Theme => theme::Theme::run_post(args, current, r),
        }
    }

    /// Runs the resolved command on its argument list.
    pub fn run(self, args: Vec<String>, current: ThemeChoice) -> (r: Outcome)
        ensures
            self.run_post(args.deep_view(), current, r),
    {
        match self {
            Palette::Ack => ack::Ack::run(args),
            Palette::Clear => clear::Clear::run(args),
            Palette::Echo => echo::Echo::run(args),
            Palette::Fetch => fetch::Fetch::run(args),
            Palette::Help => help::Help::run(args),
            Palette::Projects => projects::Projects::run(args),
            Palette::Stack => stack::Stack::run(args),
            Palette::Theme => theme::Theme::run(args, current),
        }
    }

    /// The completions offered before any history exists: every command
    /// name, then what theme, help and projects suggest.
    pub open spec fn suggest_spec() -> Seq<Seq<char>> {
        Palette::all_spec().map_values(|p: Palette| p.name_spec())
            + theme::Theme::suggest_spec() + help::Help::suggest_spec()
            + projects::Projects::suggest_spec()
    }

    pub fn suggest() -> (r: Vec<String>)
        ensures
            r.deep_view() == Palette::suggest_spec(),
    {
        let names = Palette::variants();
        let mut v: Vec<String> = Vec::new();
        let mut i: usize = 0;
        while i < names.len()
            invariant
                i <= names@.len(),
                names.deep_view() == Palette::all_spec().map_values(|p: Palette| p.name_spec()),
                v.deep_view() =~= names.deep_view().subrange(0, i as int),
            decreases names@.len() - i,
        {
            let ghost pre = v.deep_view();
            v.push(String::from_str(names[i]));
            proof {
                assert(v.deep_view() =~= pre.push(names.deep_view()[i as int]));
                assert(names.deep_view().subrange(0, i + 1) =~= names.deep_view().subrange(
                    0,
                    i as int,
                ).push(names.deep_view()[i as int]));
            }
            i += 1;
        }
        proof {
            assert(names.deep_view().subrange(0, names@.len() as int) =~= names.deep_view());
        }
        let ghost base = v.deep_view();
        let mut ts = theme::Theme::suggest();
        let ghost ts_view = ts.deep_view();
        v.append(&mut ts);
        proof {
            assert(v.deep_view() =~= base + ts_view);
        }
        let ghost base2 = v.deep_view();
        let mut hs = help::Help::suggest();
        let ghost hs_view = hs.deep_view();
        v.append(&mut hs);
        proof {
            assert(v.deep_view() =~= base2 + hs_view);
        }
        let ghost base3 = v.deep_view();
        let mut ps = projects::Projects::suggest();
        let ghost ps_view = ps.deep_view();
        v.append(&mut ps);
        proof {
            assert(v.deep_view() =~= base3 + ps_view);
            assert(v.deep_view() =~= Palette::suggest_spec());
        }
        v
    }
}

} // verus!
