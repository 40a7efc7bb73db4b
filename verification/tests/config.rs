use termfolio::commands::projects::{merge_repos, Released, Repository};
use termfolio::config::{Github, InProgress, Linkedin};

fn github(repos: Vec<&str>, in_progress: Vec<(&str, &str)>) -> Github {
    Github {
        username: "octocat".to_string(),
        repos: repos.into_iter().map(str::to_string).collect(),
        in_progress: in_progress
            .into_iter()
            .map(|(name, description)| InProgress {
                name: name.to_string(),
                description: description.to_string(),
            })
            .collect(),
    }
}

fn released(name: &str) -> Released {
    Released {
        name: name.to_string(),
        description: Some(format!("{} description", name)),
        html_url: format!("https://github.com/octocat/{}", name),
        stargazers_count: 3,
        language: Some("Rust".to_string()),
        forks: 1,
    }
}

#[test]
fn github_urls() {
    let g = github(vec![], vec![]);
    assert_eq!(g.url(), "https://github.com/octocat");
    assert_eq!(g.short_url(), "github.com/octocat");
    assert_eq!(g.api_url(), "https://api.github.com/users/octocat/repos");
}

#[test]
fn linkedin_urls() {
    let l = Linkedin { username: "octocat".to_string() };
    assert_eq!(l.url(), "https://linkedin.com/in/octocat");
    assert_eq!(l.short_url(), "linkedin.com/in/octocat");
}

fn names(repos: &[Repository]) -> Vec<String> {
    repos
        .iter()
        .map(|r| match r {
            Repository::Public { released } => format!("public:{}", released.name),
            Repository::Private { in_progress } => format!("private:{}", in_progress.name),
        })
        .collect()
}

#[test]
fn merge_keeps_everything_without_a_filter() {
    let g = github(vec![], vec![("wip", "coming soon")]);
    let merged = merge_repos(vec![released("alpha"), released("beta")], &g);
    assert_eq!(names(&merged), ["public:alpha", "public:beta", "private:wip"]);
}

#[test]
fn merge_filters_by_the_configured_names() {
    let g = github(vec!["beta"], vec![("wip", "coming soon")]);
    let merged = merge_repos(
        vec![released("alpha"), released("beta"), released("gamma")],
        &g,
    );
    assert_eq!(names(&merged), ["public:beta", "private:wip"]);
}

#[test]
fn merge_of_nothing_lists_only_works_in_progress() {
    let g = github(vec!["beta"], vec![("wip", "coming soon"), ("next", "later")]);
    let merged = merge_repos(vec![], &g);
    assert_eq!(names(&merged), ["private:wip", "private:next"]);
}
