//! Static site configuration: identity, prompt and account records, and the
//! addresses derived from them.

use vstd::prelude::*;
use vstd::string::StringExecFns;

verus! {

/// Everything the interface needs to know about its owner.
#[derive(Debug)]
pub struct Config {
    pub title: String,
    pub name: String,
    pub email: String,
    pub prompt: Prompt,
    pub github: Github,
    pub linkedin: Linkedin,
}

impl Clone for Config {
    fn clone(&self) -> (r: Self)
        ensures
            r.title == self.title,
            r.name == self.name,
            r.email == self.email,
            r.prompt == self.prompt,
            r.github.username == self.github.username,
            r.github.repos@ == self.github.repos@,
            r.github.in_progress@ == self.github.in_progress@,
            r.linkedin == self.linkedin,
    {
        Config {
            title: self.title.clone(),
            name: self.name.clone(),
            email: self.email.clone(),
            prompt: self.prompt.clone(),
            github: self.github.clone(),
            linkedin: self.linkedin.clone(),
        }
    }
}

/// The `user@host` pair shown in the prompt.
#[derive(Debug)]
pub struct Prompt {
    pub hostname: String,
    pub username: String,
}

impl Clone for Prompt {
    fn clone(&self) -> (r: Self)
        ensures
            r == *self,
    {
        Prompt { hostname: self.hostname.clone(), username: self.username.clone() }
    }
}

/// The GitHub account behind the projects listing.
#[derive(Debug)]
pub struct Github {
    pub username: String,
    /// When non-empty, only repositories named here are listed.
    pub repos: Vec<String>,
    /// Unreleased projects merged into the listing by hand.
    pub in_progress: Vec<InProgress>,
}

impl Clone for Github {
    fn clone(&self) -> (r: Self)
        ensures
            r.username == self.username,
            r.repos@ == self.repos@,
            r.in_progress@ == self.in_progress@,
    {
        let repos = self.repos.clone();
        let in_progress = self.in_progress.clone();
        proof {
            assert(repos@ =~= self.repos@);
            assert(in_progress@ =~= self.in_progress@);
        }
        Github { username: self.username.clone(), repos, in_progress }
    }
}

impl Github {
    pub fn url(&self) -> (r: String)
        ensures
            r@ == "https://github.com/"@ + self.username@,
    {
        let mut s = String::from_str("https://github.com/");
        s.append(self.username.as_str());
        s
    }

    pub fn short_url(&self) -> (r: String)
        ensures
            r@ == "github.com/"@ + self.username@,
    {
        let mut s = String::from_str("github.com/");
        s.append(self.username.as_str());
        s
    }

    pub fn api_url(&self) -> (r: String)
        ensures
            r@ == "https://api.github.com/users/"@ + self.username@ + "/repos"@,
    {
        let mut s = String::from_str("https://api.github.com/users/");
        s.append(self.username.as_str());
        s.append("/repos");
        s
    }
}

/// An unreleased project listed by hand.
#[derive(Debug)]
pub struct InProgress {
    pub name: String,
    pub description: String,
}

impl Clone for InProgress {
    fn clone(&self) -> (r: Self)
        ensures
            r == *self,
    {
        InProgress { name: self.name.clone(), description: self.description.clone() }
    }
}

/// The LinkedIn account shown in the summary.
#[derive(Debug)]
pub struct Linkedin {
    pub username: String,
}

impl Clone for Linkedin {
    fn clone(&self) -> (r: Self)
        ensures
            r == *self,
    {
        Linkedin { username: self.username.clone() }
    }
}

impl Linkedin {
    pub fn url(&self) -> (r: String)
        ensures
            r@ == "https://linkedin.com/in/"@ + self.username@,
    {
        let mut s = String::from_str("https://linkedin.com/in/");
        s.append(self.username.as_str());
        s
    }

    pub fn short_url(&self) -> (r: String)
        ensures
            r@ == "linkedin.com/in/"@ + self.username@,
    {
        let mut s = String::from_str("linkedin.com/in/");
        s.append(self.username.as_str());
        s
    }
}

} // verus!
