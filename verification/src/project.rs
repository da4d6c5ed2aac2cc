//! What is scanned: a project, and where its source comes from.

use vstd::prelude::*;
use crate::error::{CodepeckerError, Failure};
use crate::text::{owned, same_text, text_of};

verus! {

/// The rule set that the backend applies to a project.
#[derive(Debug, Clone, Copy, PartialEq, Eq, Structural)]
pub enum Template {
    Default,
    High,
    UserDefined,
}

impl Template {
    /// The word by which the backend knows the template.
    pub open spec fn name(self) -> Seq<char> {
        match self {
            Template::Default => "default"@,
            Template::High => "high"@,
            Template::UserDefined => "user_defined"@,
        }
    }

    /// The word by which the backend knows the template.
    pub fn as_str(&self) -> (r: &'static str)
        ensures
            r@ == self.name(),
    {
        match self {
            Template::Default => "default",
            Template::High => "high",
            Template::UserDefined => "user_defined",
        }
    }

    /// The template that a word names, if it names one.
    pub open spec fn named(word: Seq<char>) -> Option<Template> {
        if word == "default"@ {
            Some(Template::Default)
        } else if word == "high"@ {
            Some(Template::High)
        } else if word == "user_defined"@ {
            Some(Template::UserDefined)
        } else {
            None
        }
    }

    /// The template that a word names, if it names one.
    pub fn parse(word: &str) -> (r: Option<Template>)
        ensures
            r == Template::named(word@),
    {
        if same_text(word, "default") {
            Some(Template::Default)
        } else if same_text(word, "high") {
            Some(Template::High)
        } else if same_text(word, "user_defined") {
            Some(Template::UserDefined)
        } else {
            None
        }
    }
}

/// Every template is named by its own word, and by no other.
pub proof fn template_words_differ()
    ensures
        forall|t: Template| Template::named(#[trigger] t.name()) == Some(t),
{
    reveal_strlit("default");
    reveal_strlit("high");
    reveal_strlit("user_defined");
    assert forall|t: Template| Template::named(#[trigger] t.name()) == Some(t) by {
        assert("default"@.len() == 7);
        assert("high"@.len() == 4);
        assert("user_defined"@.len() == 12);
    }
}

/// A project as the backend files it.
#[derive(Debug, Clone, PartialEq, Eq)]
pub struct Project {
    pub name: String,
    pub lang: String,
    pub template: Template,
    pub group: Option<String>,
    pub rule: Option<String>,
}

/// The content of a [`Project`].
pub struct ProjectView {
    pub name: Seq<char>,
    pub lang: Seq<char>,
    pub template: Template,
    pub group: Option<Seq<char>>,
    pub rule: Option<Seq<char>>,
}

impl ProjectView {
    /// A project with rules of the user's own names the rule set.
    pub open spec fn valid(self) -> bool {
        self.template == Template::UserDefined ==> self.rule is Some
    }
}

impl View for Project {
    type V = ProjectView;

    open spec fn view(&self) -> ProjectView {
        ProjectView {
            name: self.name@,
            lang: self.lang@,
            template: self.template,
            group: text_of(self.group),
            rule: text_of(self.rule),
        }
    }
}

impl Project {
    /// Makes a project, and refuses one that asks for rules of the user's
    /// own without naming the rule set.
    pub fn new(
        name: &str,
        lang: &str,
        template: Template,
        group: Option<String>,
        rule: Option<String>,
    ) -> (r: Result<Project, CodepeckerError>)
        ensures
            match r {
                Ok(p) => p@.valid() && p@ == (ProjectView {
                    name: name@,
                    lang: lang@,
                    template,
                    group: text_of(group),
                    rule: text_of(rule),
                }),
                Err(e) => e@ == Failure::ParamMissing && template == Template::UserDefined
                    && rule is None,
            },
    {
        let project = Project {
            name: name.to_owned(),
            lang: lang.to_owned(),
            template,
            group,
            rule,
        };
        if project.is_valid() {
            Ok(project)
        } else {
            Err(CodepeckerError::ParamMissing)
        }
    }

    /// Whether the project names its rule set where it has to.
    pub fn is_valid(&self) -> (r: bool)
        ensures
            r == self@.valid(),
    {
        match self.template {
            Template::UserDefined => self.rule.is_some(),
            _ => true,
        }
    }

    /// A copy of the project.
    pub fn duplicate(&self) -> (r: Project)
        ensures
            r@ == self@,
    {
        Project {
            name: self.name.clone(),
            lang: self.lang.clone(),
            template: self.template,
            group: owned(&self.group),
            rule: owned(&self.rule),
        }
    }
}

/// The kind of repository that source is checked out from.
#[derive(Debug, Clone, Copy, PartialEq, Eq, Structural)]
pub enum Remote {
    Svn,
    Git,
}

impl Remote {
    /// The number by which the backend knows the kind of repository.
    pub open spec fn code(self) -> Seq<char> {
        match self {
            Remote::Svn => "1"@,
            Remote::Git => "2"@,
        }
    }

    /// The number by which the backend knows the kind of repository.
    pub fn as_str(&self) -> (r: &'static str)
        ensures
            r@ == self.code(),
    {
        match self {
            Remote::Svn => "1",
            Remote::Git => "2",
        }
    }
}

/// A repository to check the source out from.
#[derive(Debug, Clone, PartialEq, Eq)]
pub struct Source {
    pub remote: Remote,
    pub url: String,
    pub user: String,
    pub password: String,
    pub branch: Option<String>,
}

/// The content of a [`Source`].
pub struct SourceView {
    pub remote: Remote,
    pub url: Seq<char>,
    pub user: Seq<char>,
    pub password: Seq<char>,
    pub branch: Option<Seq<char>>,
}

impl View for Source {
    type V = SourceView;

    open spec fn view(&self) -> SourceView {
        SourceView {
            remote: self.remote,
            url: self.url@,
            user: self.user@,
            password: self.password@,
            branch: text_of(self.branch),
        }
    }
}

impl Source {
    /// A Subversion repository.
    pub fn svn(url: &str, user: &str, password: &str, branch: Option<String>) -> (r: Source)
        ensures
            r@ == (SourceView {
                remote: Remote::Svn,
                url: url@,
                user: user@,
                password: password@,
                branch: text_of(branch),
            }),
    {
        Source {
            remote: Remote::Svn,
            url: url.to_owned(),
            user: user.to_owned(),
            password: password.to_owned(),
            branch,
        }
    }

    /// A Git repository.
    pub fn git(url: &str, user: &str, password: &str, branch: Option<String>) -> (r: Source)
        ensures
            r@ == (SourceView {
                remote: Remote::Git,
                url: url@,
                user: user@,
                password: password@,
                branch: text_of(branch),
            }),
    {
        Source {
            remote: Remote::Git,
            url: url.to_owned(),
            user: user.to_owned(),
            password: password.to_owned(),
            branch,
        }
    }
}

} // verus!
