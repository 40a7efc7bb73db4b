use termfolio::commands::{Format, Output, Palette};
use termfolio::shell::dispatch;
use termfolio::theme::Theme;

#[test]
fn blank_input_renders_nothing() {
    for input in ["", "   ", " \t "] {
        let r = dispatch(input, Theme::Catppuccin);
        assert_eq!(r.output, None);
        assert!(!r.clear_screen);
        assert_eq!(r.theme, None);
    }
}

#[test]
fn unknown_command_is_rendered_with_a_hint() {
    let r = dispatch("unknowncmd", Theme::Catppuccin);
    let out = r.output.expect("an unknown command still renders");
    let msg = out.message().expect("as plain text");
    assert!(msg.contains("unknowncmd"));
    assert!(msg.contains("help"));
    assert_eq!(
        msg,
        "command not found: unknowncmd\ntry help to get a list of available commands"
    );
    assert!(!r.clear_screen);
}

#[test]
fn echo_joins_its_arguments() {
    let r = dispatch("echo a b c", Theme::Catppuccin);
    assert_eq!(r.output, Some(Output::Text("a b c".to_string())));
}

#[test]
fn echo_without_arguments_renders_a_blank_line() {
    let r = dispatch("echo", Theme::Catppuccin);
    assert_eq!(r.output, Some(Output::Blank));
}

#[test]
fn echo_keeps_inner_spacing() {
    let r = dispatch("echo a  b", Theme::Catppuccin);
    assert_eq!(r.output, Some(Output::Text("a  b".to_string())));
}

#[test]
fn input_is_trimmed_before_dispatch() {
    let r = dispatch("  echo hi  ", Theme::Catppuccin);
    assert_eq!(r.output, Some(Output::Text("hi".to_string())));
}

#[test]
fn clear_renders_nothing_and_clears() {
    let r = dispatch("clear", Theme::Catppuccin);
    assert_eq!(r.output, None);
    assert!(r.clear_screen);
}

#[test]
fn static_commands_render_their_payloads() {
    assert_eq!(
        dispatch("fetch", Theme::Catppuccin).output,
        Some(Output::Fetch)
    );
    assert_eq!(dispatch("ack", Theme::Catppuccin).output, Some(Output::Ack));
    assert_eq!(
        dispatch("stack", Theme::Catppuccin).output,
        Some(Output::Stack)
    );
}

#[test]
fn help_without_arguments_shows_the_overview() {
    let r = dispatch("help", Theme::Catppuccin);
    assert_eq!(r.output, Some(Output::HelpOverview));
}

#[test]
fn help_with_a_command_shows_its_entry() {
    let r = dispatch("help echo", Theme::Catppuccin);
    assert_eq!(r.output, Some(Output::HelpCommand(Palette::Echo)));
    let msg = Output::HelpCommand(Palette::Echo).message().unwrap();
    assert_eq!(msg, "echo - display a line of text\nUsage:\n\techo [string]");
}

#[test]
fn help_with_an_unknown_topic_lists_the_valid_names() {
    let r = dispatch("help bogus", Theme::Catppuccin);
    let out = r.output.expect("renders an error");
    let msg = out.message().unwrap();
    assert_eq!(
        msg,
        "command 'bogus' is not supported\navailable commands: ack, clear, echo, fetch, help, projects, stack, theme"
    );
}

#[test]
fn theme_with_a_name_selects_it() {
    let r = dispatch("theme nord", Theme::Catppuccin);
    assert_eq!(r.output, Some(Output::ThemeSelected(Theme::Nord)));
    assert_eq!(r.theme, Some(Theme::Nord));
    let msg = Output::ThemeSelected(Theme::Nord).message().unwrap();
    assert_eq!(msg, "theme 'nord' selected");
}

#[test]
fn theme_without_arguments_picks_another() {
    for _ in 0..20 {
        let r = dispatch("theme", Theme::Nord);
        match r.output {
            Some(Output::ThemeSelected(t)) => {
                assert_ne!(t, Theme::Nord);
                assert_eq!(r.theme, Some(t));
            }
            other => panic!("expected a selected theme, got {:?}", other),
        }
    }
}

#[test]
fn theme_list_flags_list_without_selecting() {
    for flag in ["theme -l", "theme --list"] {
        let r = dispatch(flag, Theme::Catppuccin);
        assert_eq!(r.output, Some(Output::ThemeList));
        assert_eq!(r.theme, None);
    }
    let msg = Output::ThemeList.message().unwrap();
    assert_eq!(
        msg,
        "available themes: catppuccin, dracula, everforest, github-dark, github-light, houston, kanagawa, nord, precious, rose-pine, tokyo-night"
    );
}

#[test]
fn theme_with_an_unknown_name_is_rendered() {
    let r = dispatch("theme neon", Theme::Catppuccin);
    let out = r.output.expect("renders an error");
    let msg = out.message().unwrap();
    assert!(msg.starts_with("theme 'neon' is not supported"));
    assert!(msg.contains("available themes: "));
    assert_eq!(r.theme, None);
}

#[test]
fn theme_with_an_unexpected_flag_shows_usage() {
    let r = dispatch("theme -x", Theme::Catppuccin);
    match r.output {
        Some(Output::UnexpectedOption { flag, usage }) => {
            assert_eq!(flag, "-x");
            assert!(usage.contains("theme -l, --list"));
        }
        other => panic!("expected an unexpected-flag render, got {:?}", other),
    }
}

#[test]
fn projects_formats() {
    assert_eq!(
        dispatch("projects", Theme::Catppuccin).output,
        Some(Output::Projects(Format::Table))
    );
    assert_eq!(
        dispatch("projects -j", Theme::Catppuccin).output,
        Some(Output::Projects(Format::Json))
    );
    assert_eq!(
        dispatch("projects --json", Theme::Catppuccin).output,
        Some(Output::Projects(Format::Json))
    );
}

#[test]
fn projects_with_an_unexpected_flag_shows_usage() {
    let r = dispatch("projects --wat", Theme::Catppuccin);
    match r.output {
        Some(Output::UnexpectedOption { flag, usage }) => {
            assert_eq!(flag, "--wat");
            assert!(usage.contains("projects -j, --json"));
        }
        other => panic!("expected an unexpected-flag render, got {:?}", other),
    }
}

#[test]
fn command_names_resolve_case_sensitively() {
    assert!(Palette::contains("echo"));
    assert!(!Palette::contains("Echo"));
    assert!(!Palette::contains(""));
    let r = dispatch("Echo hi", Theme::Catppuccin);
    match r.output {
        Some(Output::NotFound { cmd }) => assert_eq!(cmd, "Echo"),
        other => panic!("expected not found, got {:?}", other),
    }
}

#[test]
fn registry_metadata_is_exposed() {
    let (name, description) = Palette::Fetch.one_line();
    assert_eq!(name, "fetch");
    assert_eq!(description, "get a summary about me");
    let entry = Palette::Projects.help();
    assert_eq!(entry.name, "projects");
    assert_eq!(entry.description, "explore my projects");
    assert!(entry.usage.contains("use table format"));
    let suggestions = Palette::suggest();
    assert!(suggestions.iter().any(|s| s == "theme -l"));
    assert!(suggestions.iter().any(|s| s == "help echo"));
    assert!(suggestions.iter().any(|s| s == "projects --json"));
    assert!(suggestions.iter().any(|s| s == "clear"));
}
