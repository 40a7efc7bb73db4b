//! The shell: dispatch of a submitted line against the registry, and the
//! orchestrator that ties editor, history, typeahead and theme together
//! under the keyboard surface.

use crate::commands::{Outcome, Output, Palette};
use crate::editor::InputEditorState;
use crate::history::{next, prev, push_dedup, recall_value, History};
use crate::strutil::{find_char, split_spaces, trim_spec};
use crate::theme::Theme;
use crate::typeahead::typeahead;
use vstd::prelude::*;
use vstd::string::{StrSliceExecFns, StringExecFns};

verus! {

/// The command word of a submitted line: everything before its first
/// space.
pub open spec fn cmd_of(t: Seq<char>) -> Seq<char> {
    let i = find_char(t, ' ');
    if i < 0 {
        t
    } else {
        t.subrange(0, i)
    }
}

/// The argument list of a submitted line: the part after the first space,
/// split on every space; empty when there is no space.
pub open spec fn args_of(t: Seq<char>) -> Seq<Seq<char>> {
    let i = find_char(t, ' ');
    if i < 0 {
        Seq::empty()
    } else {
        split_spaces(t.subrange(i + 1, t.len() as int))
    }
}

/// What dispatching a raw line does: nothing for blank input, the resolved
/// command's own outcome for a registered name, and a "not found" render
/// for anything else.
pub open spec fn dispatch_post(input: Seq<char>, current: Theme, r: Outcome) -> bool {
    let t = trim_spec(input);
    if t.len() == 0 {
        r == (Outcome { output: None, clear_screen: false, theme: None })
    } else if exists|p: Palette| cmd_of(t) == p.name_spec() {
        forall|p: Palette| cmd_of(t) == p.name_spec() ==> p.run_post(args_of(t), current, r)
    } else {
        &&& r.output matches Some(Output::NotFound { cmd }) && cmd@ == cmd_of(t)
        &&& !r.clear_screen
        &&& r.theme is None
    }
}

/// Resolves and runs a raw input line. Blank lines do nothing; an unknown
/// command becomes a rendered "not found", never a failure.
pub fn dispatch(input: &str, current: Theme) -> (r: Outcome)
    ensures
        dispatch_post(input@, current, r),
{
    let trimmed = crate::strutil::trim_str(input);
    if trimmed.unicode_len() == 0 {
        return Outcome { output: None, clear_screen: false, theme: None };
    }
    let (cmd, rest) = crate::strutil::split_once_space(trimmed);
    let args: Vec<String> = match rest {
        Some(rest_str) => crate::strutil::split_spaces_str(rest_str),
        None => Vec::new(),
    };
    proof {
        assert(cmd@ == cmd_of(trimmed@));
        assert(args.deep_view() =~= args_of(trimmed@));
    }
    match Palette::parse(cmd) {
        Some(p) => {
            let r = p.run(args, current);
            proof {
                Palette::lemma_names_injective();
            }
            r
        },
        None => not_found(cmd.to_owned()),
    }
}

/// The "command not found" outcome, naming the offending command.
pub fn not_found(cmd: String) -> (r: Outcome)
    ensures
        r.output matches Some(Output::NotFound { cmd: c }) && c@ == cmd@,
        !r.clear_screen,
        r.theme is None,
{
    Outcome { output: Some(Output::NotFound { cmd }), clear_screen: false, theme: None }
}

/// The interface state driven by keystrokes: the line under edit, the two
/// history logs, the history cursor, the banner and the theme.
#[derive(Debug)]
pub struct Shell {
    pub editor: InputEditorState,
    pub history: History,
    /// The history cursor; `commands().len()` is the fresh-line position.
    pub current: usize,
    pub banner_visible: bool,
    pub theme: Theme,
}

impl Shell {
    pub open spec fn wf(&self) -> bool {
        &&& self.editor.wf()
        &&& self.history.wf()
        &&& self.current <= self.history.commands_view().len()
    }

    /// The typeahead candidates: the command log, then the canned
    /// suggestions.
    pub open spec fn candidates_spec(&self) -> Seq<Seq<char>> {
        self.history.commands_view() + Palette::suggest_spec()
    }

    pub fn new() -> (s: Shell)
        ensures
            s.wf(),
            s.editor.text@.len() == 0,
            s.editor.cursor == 0,
            s.history.commands_view().len() == 0,
            s.history.buffer_view().len() == 0,
            s.current == 0,
            s.banner_visible,
            s.theme == Theme::Catppuccin,
    {
        Shell {
            editor: InputEditorState::new(),
            history: History::new(),
            current: 0,
            banner_visible: true,
            theme: Theme::Catppuccin,
        }
    }

    /// The completion suffix for the current line.
    pub fn typeahead(&self) -> (r: String)
        ensures
            r@ == typeahead(self.candidates_spec(), self.editor.text@, 2),
    {
        let cs = self.history.commands();
        let sugg = Palette::suggest();
        let mut cands: Vec<&str> = Vec::new();
        let mut i: usize = 0;
        while i < cs.len()
            invariant
                i <= cs@.len(),
                cands.deep_view() =~= cs.deep_view().subrange(0, i as int),
            decreases cs@.len() - i,
        {
            let ghost pre = cands.deep_view();
            cands.push(cs[i].as_str());
            proof {
                assert(cands.deep_view() =~= pre.push(cs.deep_view()[i as int]));
                assert(cs.deep_view().subrange(0, i + 1) =~= cs.deep_view().subrange(
                    0,
                    i as int,
                ).push(cs.deep_view()[i as int]));
            }
            i += 1;
        }
        proof {
            assert(cs.deep_view().subrange(0, cs@.len() as int) =~= cs.deep_view());
        }
        let ghost base = cands.deep_view();
        let mut j: usize = 0;
        while j < sugg.len()
            invariant
                j <= sugg@.len(),
                base == self.history.commands_view(),
                cands.deep_view() =~= base + sugg.deep_view().subrange(0, j as int),
            decreases sugg@.len() - j,
        {
            let ghost pre = cands.deep_view();
            cands.push(sugg[j].as_str());
            proof {
                assert(cands.deep_view() =~= pre.push(sugg.deep_view()[j as int]));
                assert(sugg.deep_view().subrange(0, j + 1) =~= sugg.deep_view().subrange(
                    0,
                    j as int,
                ).push(sugg.deep_view()[j as int]));
                assert(pre.push(sugg.deep_view()[j as int]) =~= base + sugg.deep_view().subrange(
                    0,
                    j + 1,
                ));
            }
            j += 1;
        }
        proof {
            assert(sugg.deep_view().subrange(0, sugg@.len() as int) =~= sugg.deep_view());
            assert(cands.deep_view() =~= self.candidates_spec());
        }
        crate::typeahead::use_typeahead(cands, self.editor.text.as_str(), 2)
    }

    /// Enter: the line is dispatched; a non-blank line is recorded in the
    /// history before the editor resets; then the outcome's effects are
    /// applied to buffer, banner and theme, and the history cursor moves to
    /// the fresh line.
    pub fn on_enter(&mut self) -> (out: Outcome)
        requires
            old(self).wf(),
        ensures
            final(self).wf(),
            dispatch_post(old(self).editor.text@, old(self).theme, out),
            trim_spec(old(self).editor.text@).len() == 0 ==> final(self).history.commands_view()
                == old(self).history.commands_view() && final(self).history.buffer_view()
                == old(self).history.buffer_view(),
            trim_spec(old(self).editor.text@).len() > 0 ==> final(self).history.commands_view()
                == push_dedup(old(self).history.commands_view(), old(self).editor.text@),
            trim_spec(old(self).editor.text@).len() > 0 && !out.clear_screen
                ==> final(self).history.buffer_view().len()
                == old(self).history.buffer_view().len() + 1
                && final(self).history.buffer_view().drop_last()
                == old(self).history.buffer_view()
                && final(self).history.buffer_view().last().input_view()
                == old(self).editor.text@,
            out.clear_screen ==> final(self).history.buffer_view() == Seq::<
                crate::history::Entry,
            >::empty(),
            final(self).editor.text@.len() == 0,
            final(self).editor.cursor == 0,
            final(self).current == final(self).history.commands_view().len(),
            final(self).banner_visible == (old(self).banner_visible && !out.clear_screen),
            out.theme matches Some(t) ==> final(self).theme == t,
            out.theme is None ==> final(self).theme == old(self).theme,
    {
        let outcome = dispatch(self.editor.text.as_str(), self.theme);
        let blank = crate::strutil::trim_str(self.editor.text.as_str()).unicode_len() == 0;
        if !blank {
            let text = self.editor.text.clone();
            self.history.push(text.as_str());
        }
        self.current = self.history.commands().len();
        self.editor.clear();
        if outcome.clear_screen {
            self.history.clear();
            self.banner_visible = false;
        }
        if let Some(t) = outcome.theme {
            self.theme = t;
        }
        outcome
    }

    /// ArrowUp: recall one step back; the editor adopts the recalled line
    /// with the cursor at its end.
    pub fn on_arrow_up(&mut self)
        requires
            old(self).wf(),
        ensures
            final(self).wf(),
            final(self).current == if old(self).current > 0 {
                old(self).current - 1
            } else {
                0int
            },
            final(self).editor.text@ == recall_value(
                old(self).history.commands_view(),
                final(self).current as int,
            ),
            final(self).editor.cursor == final(self).editor.text@.len(),
            final(self).history == old(self).history,
            final(self).banner_visible == old(self).banner_visible,
            final(self).theme == old(self).theme,
    {
        let (idx, value) = prev(self.current, &self.history);
        self.current = idx;
        self.editor.recall(value);
    }

    /// ArrowDown: recall one step forward; the index clamps to the fresh
    /// line, where the recalled text is empty.
    pub fn on_arrow_down(&mut self)
        requires
            old(self).wf(),
        ensures
            final(self).wf(),
            final(self).current == vstd::math::min(
                old(self).current + 1,
                old(self).history.commands_view().len() as int,
            ),
            final(self).editor.text@ == recall_value(
                old(self).history.commands_view(),
                final(self).current as int,
            ),
            final(self).editor.cursor == final(self).editor.text@.len(),
            final(self).history == old(self).history,
            final(self).banner_visible == old(self).banner_visible,
            final(self).theme == old(self).theme,
    {
        let (idx, value) = next(self.current, &self.history);
        self.current = idx;
        self.editor.recall(value);
    }

    /// Tab: append the completion suffix, with the cursor at the new end.
    pub fn on_tab(&mut self)
        requires
            old(self).wf(),
        ensures
            final(self).wf(),
            final(self).editor.text@ == old(self).editor.text@ + typeahead(
                old(self).candidates_spec(),
                old(self).editor.text@,
                2,
            ),
            final(self).editor.cursor == final(self).editor.text@.len(),
            final(self).current == old(self).current,
            final(self).history == old(self).history,
            final(self).banner_visible == old(self).banner_visible,
            final(self).theme == old(self).theme,
    {
        let suffix = self.typeahead();
        self.editor.append(suffix.as_str());
    }

    /// Ctrl+C: drop the line under edit.
    pub fn on_ctrl_c(&mut self)
        ensures
            final(self).editor.text@.len() == 0,
            final(self).editor.cursor == 0,
            final(self).current == old(self).current,
            final(self).history == old(self).history,
            final(self).banner_visible == old(self).banner_visible,
            final(self).theme == old(self).theme,
            old(self).wf() ==> final(self).wf(),
    {
        self.editor.clear();
    }

    /// Ctrl+L: empty the transcript buffer and hide the banner; the line
    /// under edit and the command log stay.
    pub fn on_ctrl_l(&mut self)
        ensures
            final(self).editor == old(self).editor,
            final(self).history.commands_view() == old(self).history.commands_view(),
            final(self).history.buffer_view() == Seq::<crate::history::Entry>::empty(),
            final(self).current == old(self).current,
            !final(self).banner_visible,
            final(self).theme == old(self).theme,
            old(self).wf() ==> final(self).wf(),
    {
        self.history.clear();
        self.banner_visible = false;
    }

    /// A native text change: adopt the new text, carrying the cursor by the
    /// length delta.
    pub fn on_text_change(&mut self, new_text: String)
        requires
            old(self).wf(),
        ensures
            final(self).wf(),
            final(self).editor.text == new_text,
            final(self).editor.cursor == crate::editor::shifted_cursor(
                old(self).editor.cursor as int,
                old(self).editor.text@.len() as int,
                new_text@.len() as int,
            ),
            final(self).current == old(self).current,
            final(self).history == old(self).history,
            final(self).banner_visible == old(self).banner_visible,
            final(self).theme == old(self).theme,
    {
        self.editor.text_change(new_text);
    }

    /// ArrowLeft: one step left in the line.
    pub fn on_arrow_left(&mut self)
        requires
            old(self).wf(),
        ensures
            final(self).wf(),
            final(self).editor.text == old(self).editor.text,
            final(self).editor.cursor == if old(self).editor.cursor > 0 {
                old(self).editor.cursor - 1
            } else {
                0int
            },
            final(self).current == old(self).current,
            final(self).history == old(self).history,
            final(self).banner_visible == old(self).banner_visible,
            final(self).theme == old(self).theme,
    {
        self.editor.arrow_left();
    }

    /// ArrowRight: one step right in the line.
    pub fn on_arrow_right(&mut self)
        requires
            old(self).wf(),
        ensures
            final(self).wf(),
            final(self).editor.text == old(self).editor.text,
            final(self).editor.cursor == vstd::math::min(
                old(self).editor.cursor + 1,
                old(self).editor.text@.len() as int,
            ),
            final(self).current == old(self).current,
            final(self).history == old(self).history,
            final(self).banner_visible == old(self).banner_visible,
            final(self).theme == old(self).theme,
    {
        self.editor.arrow_right();
    }

    /// Home: jump to the start of the line.
    pub fn on_home(&mut self)
        requires
            old(self).wf(),
        ensures
            final(self).wf(),
            final(self).editor.text == old(self).editor.text,
            final(self).editor.cursor == 0,
            final(self).current == old(self).current,
            final(self).history == old(self).history,
            final(self).banner_visible == old(self).banner_visible,
            final(self).theme == old(self).theme,
    {
        self.editor.home();
    }

    /// End: jump to the end of the line.
    pub fn on_end(&mut self)
        requires
            old(self).wf(),
        ensures
            final(self).wf(),
            final(self).editor.text == old(self).editor.text,
            final(self).editor.cursor == old(self).editor.text@.len(),
            final(self).current == old(self).current,
            final(self).history == old(self).history,
            final(self).banner_visible == old(self).banner_visible,
            final(self).theme == old(self).theme,
    {
        self.editor.end();
    }
}

} // verus!
