//! What a run is to do, worked out from what the operator gave.

use vstd::prelude::*;
use crate::error::{CodepeckerError, Failure};
use crate::pecker::{Pecker, PeckerView};
use crate::project::{Project, ProjectView, Remote, Source, SourceView, Template};
use crate::text::{owned, text_of};

verus! {

/// What the operator gave. A value that was not given is `None`.
#[derive(Debug, Clone, PartialEq, Eq)]
pub struct Options {
    /// The address of the backend.
    pub url: Option<String>,
    /// The credential.
    pub key: Option<String>,
    /// The proxy to reach the backend through.
    pub proxy: Option<String>,
    /// The name of the project.
    pub project: Option<String>,
    /// The group of the project.
    pub group: Option<String>,
    /// The language of the project.
    pub lang: Option<String>,
    /// The rule set to apply.
    pub template: Option<Template>,
    /// The rule set of the user's own.
    pub rule: Option<String>,
    /// The archive to submit.
    pub file: Option<String>,
    /// The Subversion repository to submit.
    pub svn: Option<String>,
    /// The Git repository to submit.
    pub git: Option<String>,
    /// The user of the repository.
    pub user: Option<String>,
    /// The password of the repository.
    pub password: Option<String>,
    /// The branch of the repository.
    pub branch: Option<String>,
    /// A task that was submitted before, whose findings are wanted.
    pub task: Option<String>,
    /// Where the report goes.
    pub output: Option<String>,
    /// The severity floor.
    pub severity: String,
    /// The language that remediation text is wanted for.
    pub language: String,
    /// Whether the content of files is wanted.
    pub get_source: bool,
}

/// What there is to submit, if anything.
#[derive(Debug, Clone, PartialEq, Eq)]
pub enum Plan {
    /// Nothing: the findings of a task filed earlier are wanted.
    Resume { task: String },
    /// The archive at this path.
    Archive { project: Project, file: String },
    /// A repository.
    Repository { project: Project, source: Source },
    /// Nothing, and nothing is wanted: the operator named no source.
    Nothing,
}

/// The content of a [`Plan`].
pub enum PlanView {
    Resume { task: Seq<char> },
    Archive { project: ProjectView, file: Seq<char> },
    Repository { project: ProjectView, source: SourceView },
    Nothing,
}

impl View for Plan {
    type V = PlanView;

    open spec fn view(&self) -> PlanView {
        match self {
            Plan::Resume { task } => PlanView::Resume { task: task@ },
            Plan::Archive { project, file } => PlanView::Archive { project: project@, file: file@ },
            Plan::Repository { project, source } => PlanView::Repository {
                project: project@,
                source: source@,
            },
            Plan::Nothing => PlanView::Nothing,
        }
    }
}

/// A run: the backend, what to submit to it, and what to make of the findings.
#[derive(Debug, Clone, PartialEq, Eq)]
pub struct Run {
    pub pecker: Pecker,
    pub plan: Plan,
    pub output: String,
    pub severity: String,
    pub language: String,
    pub get_source: bool,
}

/// The content of a [`Run`].
pub struct RunView {
    pub pecker: PeckerView,
    pub plan: PlanView,
    pub output: Seq<char>,
    pub severity: Seq<char>,
    pub language: Seq<char>,
    pub get_source: bool,
}

impl View for Run {
    type V = RunView;

    open spec fn view(&self) -> RunView {
        RunView {
            pecker: self.pecker@,
            plan: self.plan@,
            output: self.output@,
            severity: self.severity@,
            language: self.language@,
            get_source: self.get_source,
        }
    }
}

/// The repository that the options name: the Git one before the Subversion
/// one, and neither without a user and a password.
pub open spec fn repository_of(options: Options) -> Option<SourceView> {
    let remote = if options.git is Some {
        Some((Remote::Git, options.git->0@))
    } else if options.svn is Some {
        Some((Remote::Svn, options.svn->0@))
    } else {
        None
    };
    match (remote, options.user, options.password) {
        (Some((kind, url)), Some(user), Some(password)) => Some(
            SourceView {
                remote: kind,
                url,
                user: user@,
                password: password@,
                branch: text_of(options.branch),
            },
        ),
        _ => None,
    }
}

/// What the options ask for.
///
/// A task together with an output asks for the findings of that task, and
/// nothing else is looked at. Otherwise the project's name, language and
/// rule set and the output have to be there. An archive is submitted before
/// a repository; where neither is named, nothing is done. Nothing is
/// submitted for a project that asks for rules of the user's own without
/// naming the rule set.
pub open spec fn plan_of(options: Options) -> Result<PlanView, Failure> {
    if options.task is Some && options.output is Some {
        Ok(PlanView::Resume { task: options.task->0@ })
    } else {
        match (options.project, options.lang, options.template, options.output) {
            (Some(name), Some(lang), Some(template), Some(_)) => {
                let project = ProjectView {
                    name: name@,
                    lang: lang@,
                    template,
                    group: text_of(options.group),
                    rule: text_of(options.rule),
                };
                if options.file is Some {
                    if project.valid() {
                        Ok(PlanView::Archive { project, file: options.file->0@ })
                    } else {
                        Err(Failure::ParamMissing)
                    }
                } else {
                    match repository_of(options) {
                        Some(source) => if project.valid() {
                            Ok(PlanView::Repository { project, source })
                        } else {
                            Err(Failure::ParamMissing)
                        },
                        None => Ok(PlanView::Nothing),
                    }
                }
            },
            _ => Err(Failure::ParamMissing),
        }
    }
}

/// The run that the options ask for, where they hold what it needs.
pub open spec fn run_of(options: Options) -> Result<RunView, Failure> {
    match (options.url, options.key, plan_of(options)) {
        (Some(url), Some(key), Ok(plan)) => Ok(
            RunView {
                pecker: PeckerView { url: url@, proxy: text_of(options.proxy), key: key@ },
                plan,
                output: options.output->0@,
                severity: options.severity@,
                language: options.language@,
                get_source: options.get_source,
            },
        ),
        _ => Err(Failure::ParamMissing),
    }
}

fn repository(options: &Options) -> (r: Option<Source>)
    ensures
        match r {
            Some(source) => repository_of(*options) == Some(source@),
            None => repository_of(*options) is None,
        },
{
    match (&options.user, &options.password) {
        (Some(user), Some(password)) => {
            if let Some(git) = &options.git {
                Some(
                    Source::git(
                        git.as_str(),
                        user.as_str(),
                        password.as_str(),
                        owned(&options.branch),
                    ),
                )
            } else if let Some(svn) = &options.svn {
                Some(
                    Source::svn(
                        svn.as_str(),
                        user.as_str(),
                        password.as_str(),
                        owned(&options.branch),
                    ),
                )
            } else {
                None
            }
        },
        _ => None,
    }
}

/// Works out what to submit.
pub fn plan(options: &Options) -> (r: Result<Plan, CodepeckerError>)
    ensures
        match r {
            Ok(p) => plan_of(*options) == Ok::<PlanView, Failure>(p@),
            Err(e) => plan_of(*options) == Err::<PlanView, Failure>(e@),
        },
{
    if let (Some(task), Some(_)) = (&options.task, &options.output) {
        return Ok(Plan::Resume { task: task.clone() });
    }
    match (&options.project, &options.lang, &options.template, &options.output) {
        (Some(name), Some(lang), Some(template), Some(_)) => {
            let project = Project {
                name: name.clone(),
                lang: lang.clone(),
                template: *template,
                group: owned(&options.group),
                rule: owned(&options.rule),
            };
            if let Some(file) = &options.file {
                if project.is_valid() {
                    Ok(Plan::Archive { project, file: file.clone() })
                } else {
                    Err(CodepeckerError::ParamMissing)
                }
            } else {
                match repository(options) {
                    Some(source) => if project.is_valid() {
                        Ok(Plan::Repository { project, source })
                    } else {
                        Err(CodepeckerError::ParamMissing)
                    },
                    None => Ok(Plan::Nothing),
                }
            }
        },
        _ => Err(CodepeckerError::ParamMissing),
    }
}

/// Works out the run that the options ask for. It fails where the address
/// or the credential of the backend is missing, and where there is neither a
/// task with an output nor a project with its language, its rule set and an
/// output.
pub fn builder(options: &Options) -> (r: Result<Run, CodepeckerError>)
    ensures
        match r {
            Ok(run) => run_of(*options) == Ok::<RunView, Failure>(run@),
            Err(e) => run_of(*options) == Err::<RunView, Failure>(e@) && e@
                == Failure::ParamMissing,
        },
{
    let (url, key) = match (&options.url, &options.key) {
        (Some(url), Some(key)) => (url, key),
        _ => {
            return Err(CodepeckerError::ParamMissing);
        },
    };
    let plan = match plan(options) {
        Ok(p) => p,
        Err(_) => {
            return Err(CodepeckerError::ParamMissing);
        },
    };
    let output = match &options.output {
        Some(o) => o.clone(),
        None => {
            return Err(CodepeckerError::ParamMissing);
        },
    };
    Ok(
        Run {
            pecker: Pecker::new(url.as_str(), owned(&options.proxy), key.as_str()),
            plan,
            output,
            severity: options.severity.clone(),
            language: options.language.clone(),
            get_source: options.get_source,
        },
    )
}

} // verus!
