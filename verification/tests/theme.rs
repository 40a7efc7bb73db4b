use termfolio::theme::Theme;

#[test]
fn names_round_trip_through_parse() {
    for t in [
        Theme::Catppuccin,
        Theme::Dracula,
        Theme::Everforest,
        Theme::GithubDark,
        Theme::GithubLight,
        Theme::Houston,
        Theme::Kanagawa,
        Theme::Nord,
        Theme::Precious,
        Theme::RosePine,
        Theme::TokyoNight,
    ] {
        assert_eq!(Theme::parse(t.name()), Some(t));
    }
}

#[test]
fn unknown_names_do_not_parse() {
    assert_eq!(Theme::parse("neon"), None);
    assert_eq!(Theme::parse("Nord"), None);
    assert_eq!(Theme::parse(""), None);
}

#[test]
fn variants_list_the_kebab_case_names() {
    let names = Theme::variants();
    assert_eq!(names.len(), 11);
    assert_eq!(names[0], "catppuccin");
    assert!(names.contains(&"github-dark"));
    assert!(names.contains(&"tokyo-night"));
}

#[test]
fn random_except_never_returns_the_current_theme() {
    for _ in 0..50 {
        assert_ne!(Theme::random_except(Theme::Nord), Theme::Nord);
        assert_ne!(Theme::random_except(Theme::Catppuccin), Theme::Catppuccin);
    }
}
