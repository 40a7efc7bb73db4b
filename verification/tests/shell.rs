use termfolio::commands::Output;
use termfolio::shell::Shell;
use termfolio::theme::Theme;

fn type_line(shell: &mut Shell, line: &str) {
    shell.on_text_change(line.to_string());
}

#[test]
fn enter_records_history_then_resets_the_editor() {
    let mut shell = Shell::new();
    type_line(&mut shell, "echo hi");
    let out = shell.on_enter();
    assert_eq!(out.output, Some(Output::Text("hi".to_string())));
    assert_eq!(shell.history.commands(), &["echo hi"]);
    assert_eq!(shell.history.buffer().len(), 1);
    assert_eq!(shell.history.buffer()[0].input, "echo hi");
    assert_eq!(shell.editor.text, "");
    assert_eq!(shell.editor.cursor, 0);
    assert_eq!(shell.current, 1);
}

#[test]
fn blank_enter_creates_no_history_entry() {
    let mut shell = Shell::new();
    type_line(&mut shell, "   ");
    let out = shell.on_enter();
    assert_eq!(out.output, None);
    assert!(shell.history.commands().is_empty());
    assert!(shell.history.buffer().is_empty());
    assert_eq!(shell.editor.text, "");
}

#[test]
fn clear_empties_the_buffer_but_not_the_commands() {
    let mut shell = Shell::new();
    type_line(&mut shell, "echo hi");
    shell.on_enter();
    type_line(&mut shell, "clear");
    shell.on_enter();
    assert!(shell.history.buffer().is_empty());
    assert_eq!(shell.history.commands(), &["echo hi", "clear"]);
    assert!(!shell.banner_visible);
}

#[test]
fn theme_command_switches_the_shell_theme() {
    let mut shell = Shell::new();
    assert_eq!(shell.theme, Theme::Catppuccin);
    type_line(&mut shell, "theme kanagawa");
    shell.on_enter();
    assert_eq!(shell.theme, Theme::Kanagawa);
    type_line(&mut shell, "theme");
    shell.on_enter();
    assert_ne!(shell.theme, Theme::Kanagawa);
}

#[test]
fn arrows_recall_commands_and_clamp() {
    let mut shell = Shell::new();
    for line in ["clear", "echo", "fetch"] {
        type_line(&mut shell, line);
        shell.on_enter();
    }
    assert_eq!(shell.current, 3);
    shell.on_arrow_up();
    assert_eq!((shell.current, shell.editor.text.as_str()), (2, "fetch"));
    shell.on_arrow_up();
    shell.on_arrow_up();
    assert_eq!((shell.current, shell.editor.text.as_str()), (0, "clear"));
    shell.on_arrow_up();
    assert_eq!((shell.current, shell.editor.text.as_str()), (0, "clear"));
    shell.on_arrow_down();
    assert_eq!((shell.current, shell.editor.text.as_str()), (1, "echo"));
    shell.on_arrow_down();
    shell.on_arrow_down();
    assert_eq!((shell.current, shell.editor.text.as_str()), (3, ""));
    shell.on_arrow_down();
    assert_eq!((shell.current, shell.editor.text.as_str()), (3, ""));
}

#[test]
fn tab_completes_from_history_and_suggestions() {
    let mut shell = Shell::new();
    type_line(&mut shell, "fetch");
    shell.on_enter();
    type_line(&mut shell, "fe");
    shell.on_tab();
    // history offers "fetch"; the canned suggestions offer nothing else on "fe"
    assert_eq!(shell.editor.text, "fetch");
    assert_eq!(shell.editor.cursor, 5);
}

#[test]
fn tab_completes_canned_suggestions_without_history() {
    let mut shell = Shell::new();
    type_line(&mut shell, "pr");
    shell.on_tab();
    // "projects", "projects -j" and "projects --json" share "projects"
    assert_eq!(shell.editor.text, "projects");
}

#[test]
fn tab_below_the_limit_does_nothing() {
    let mut shell = Shell::new();
    type_line(&mut shell, "f");
    shell.on_tab();
    assert_eq!(shell.editor.text, "f");
}

#[test]
fn ctrl_c_drops_the_line() {
    let mut shell = Shell::new();
    type_line(&mut shell, "echo never mind");
    shell.on_ctrl_c();
    assert_eq!(shell.editor.text, "");
    assert!(shell.history.commands().is_empty());
}

#[test]
fn ctrl_l_clears_the_screen_but_keeps_the_line() {
    let mut shell = Shell::new();
    type_line(&mut shell, "echo hi");
    shell.on_enter();
    type_line(&mut shell, "ec");
    shell.on_ctrl_l();
    assert!(shell.history.buffer().is_empty());
    assert_eq!(shell.history.commands(), &["echo hi"]);
    assert_eq!(shell.editor.text, "ec");
    assert!(!shell.banner_visible);
}

#[test]
fn typeahead_is_stateless_across_edits() {
    let mut shell = Shell::new();
    type_line(&mut shell, "st");
    assert_eq!(shell.typeahead(), "ack");
    type_line(&mut shell, "x");
    assert_eq!(shell.typeahead(), "");
    type_line(&mut shell, "st");
    assert_eq!(shell.typeahead(), "ack");
}
