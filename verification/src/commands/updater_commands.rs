//! The commands that ask the update service for an update and install it.

use crate::commands::{CommandError, CommandErrorView};
use crate::protocol::{
    course, every_operation_ends, faithful, faithful_shell_is_never_refused, Effect, EffectView,
    Machine, Reply, ReplyView, UpdateResponseView,
};
use vstd::prelude::*;
use vstd::string::*;

verus! {

/// What a check for updates found.
#[derive(Debug, PartialEq, Eq)]
pub enum UpdateReport {
    /// An update is available.
    Available { version: String, date: String, body: String },
    /// The installed version is the latest.
    UpToDate,
}

/// The mathematical value of an [`UpdateReport`].
pub enum UpdateReportView {
    Available { version: Seq<char>, date: Seq<char>, body: Seq<char> },
    UpToDate,
}

impl View for UpdateReport {
    type V = UpdateReportView;

    open spec fn view(&self) -> UpdateReportView {
        match self {
            UpdateReport::Available { version, date, body } => UpdateReportView::Available {
                version: version@,
                date: date@,
                body: body@,
            },
            UpdateReport::UpToDate => UpdateReportView::UpToDate,
        }
    }
}

/// The text `text`, or the empty text where there is none.
pub open spec fn text_or_empty(text: Option<Seq<char>>) -> Seq<char> {
    match text {
        Some(text) => text,
        None => Seq::empty(),
    }
}

/// The report on the service's answer: an available update with its
/// version, its date and its notes, each empty where the service gave
/// none; or the word that there is no update.
pub open spec fn update_report(response: UpdateResponseView) -> UpdateReportView {
    if response.available {
        UpdateReportView::Available {
            version: response.version,
            date: text_or_empty(response.date),
            body: text_or_empty(response.body),
        }
    } else {
        UpdateReportView::UpToDate
    }
}

/// A check for updates in progress, or how it ended.
#[derive(Debug, PartialEq, Eq)]
pub enum CheckUpdate {
    /// The update service was asked.
    AwaitCheck,
    /// The command ended.
    Done(Result<UpdateReport, CommandError>),
}

/// The mathematical value of a [`CheckUpdate`].
pub enum CheckUpdateView {
    AwaitCheck,
    Done(Result<UpdateReportView, CommandErrorView>),
}

impl View for CheckUpdate {
    type V = CheckUpdateView;

    open spec fn view(&self) -> CheckUpdateView {
        match self {
            CheckUpdate::AwaitCheck => CheckUpdateView::AwaitCheck,
            CheckUpdate::Done(Ok(report)) => CheckUpdateView::Done(Ok(report@)),
            CheckUpdate::Done(Err(error)) => CheckUpdateView::Done(Err(error@)),
        }
    }
}

/// How a check starts: by asking the update service.
pub open spec fn check_update_spec() -> (CheckUpdateView, Option<EffectView>) {
    (CheckUpdateView::AwaitCheck, Some(EffectView::CheckUpdate))
}

impl Machine for CheckUpdateView {
    /// The command ends with the report on the service's answer, or with the
    /// service's description of why it could not answer.
    open spec fn resume(self, reply: ReplyView) -> (CheckUpdateView, Option<EffectView>) {
        match self {
            CheckUpdateView::AwaitCheck => match reply {
                ReplyView::Update(response) => (
                    CheckUpdateView::Done(Ok(update_report(response))),
                    None,
                ),
                ReplyView::Failed(cause) => (
                    CheckUpdateView::Done(Err(CommandErrorView::UpdateCheck(cause))),
                    None,
                ),
                _ => (CheckUpdateView::Done(Err(CommandErrorView::UnexpectedReply)), None),
            },
            CheckUpdateView::Done(_) => (self, None),
        }
    }

    open spec fn ended(self) -> bool {
        self is Done
    }

    open spec fn remaining(self) -> nat {
        match self {
            CheckUpdateView::AwaitCheck => 1,
            CheckUpdateView::Done(_) => 0,
        }
    }

    open spec fn refused(self) -> bool {
        self matches CheckUpdateView::Done(Err(error)) && error.is_unexpected()
    }

    proof fn lemma_resume(self, reply: ReplyView) {
    }

    proof fn lemma_takes_answers(self, reply: ReplyView, answer: ReplyView) {
    }
}

/// Asks whether an update is available.
pub fn check_update() -> (next: (CheckUpdate, Option<Effect>))
    ensures
        (next.0@, next.1.deep_view()) == check_update_spec(),
{
    (CheckUpdate::AwaitCheck, Some(Effect::CheckUpdate))
}

fn or_empty(text: Option<String>) -> (r: String)
    ensures
        r@ == text_or_empty(text.deep_view()),
{
    match text {
        Some(text) => text,
        None => String::new(),
    }
}

impl CheckUpdate {
    /// Takes the shell's reply to the pending effect and says what comes next.
    pub fn resume(self, reply: Reply) -> (next: (CheckUpdate, Option<Effect>))
        ensures
            (next.0@, next.1.deep_view()) == self@.resume(reply@),
    {
        match self {
            CheckUpdate::AwaitCheck => match reply {
                Reply::Update(response) => {
                    let report = if response.available {
                        UpdateReport::Available {
                            version: response.version,
                            date: or_empty(response.date),
                            body: or_empty(response.body),
                        }
                    } else {
                        UpdateReport::UpToDate
                    };
                    (CheckUpdate::Done(Ok(report)), None)
                },
                Reply::Failed(cause) => (
                    CheckUpdate::Done(Err(CommandError::UpdateCheck(cause))),
                    None,
                ),
                _ => (CheckUpdate::Done(Err(CommandError::UnexpectedReply)), None),
            },
            CheckUpdate::Done(outcome) => (CheckUpdate::Done(outcome), None),
        }
    }
}

/// An installation in progress, or how it ended.
#[derive(Debug, PartialEq, Eq)]
pub enum InstallUpdate {
    /// The update service was asked whether there is an update.
    AwaitCheck,
    /// The update is being downloaded and installed.
    AwaitInstall,
    /// The installation ended.
    Done(Result<(), CommandError>),
}

/// The mathematical value of an [`InstallUpdate`].
pub enum InstallUpdateView {
    AwaitCheck,
    AwaitInstall,
    Done(Result<(), CommandErrorView>),
}

impl View for InstallUpdate {
    type V = InstallUpdateView;

    open spec fn view(&self) -> InstallUpdateView {
        match self {
            InstallUpdate::AwaitCheck => InstallUpdateView::AwaitCheck,
            InstallUpdate::AwaitInstall => InstallUpdateView::AwaitInstall,
            InstallUpdate::Done(Ok(())) => InstallUpdateView::Done(Ok(())),
            InstallUpdate::Done(Err(error)) => InstallUpdateView::Done(Err(error@)),
        }
    }
}

/// How an installation starts: by asking the update service.
pub open spec fn install_update_spec() -> (InstallUpdateView, Option<EffectView>) {
    (InstallUpdateView::AwaitCheck, Some(EffectView::CheckUpdate))
}

impl Machine for InstallUpdateView {
    /// An available update is downloaded and installed; where there is
    /// none, the installation ends with an error and installs nothing.
    open spec fn resume(self, reply: ReplyView) -> (InstallUpdateView, Option<EffectView>) {
        match self {
            InstallUpdateView::AwaitCheck => match reply {
                ReplyView::Update(response) => if response.available {
                    (InstallUpdateView::AwaitInstall, Some(EffectView::InstallUpdate))
                } else {
                    (InstallUpdateView::Done(Err(CommandErrorView::NoUpdate)), None)
                },
                ReplyView::Failed(cause) => (
                    InstallUpdateView::Done(Err(CommandErrorView::UpdateCheck(cause))),
                    None,
                ),
                _ => (InstallUpdateView::Done(Err(CommandErrorView::UnexpectedReply)), None),
            },
            InstallUpdateView::AwaitInstall => match reply {
                ReplyView::Done => (InstallUpdateView::Done(Ok(())), None),
                ReplyView::Failed(cause) => (
                    InstallUpdateView::Done(Err(CommandErrorView::UpdateInstall(cause))),
                    None,
                ),
                _ => (InstallUpdateView::Done(Err(CommandErrorView::UnexpectedReply)), None),
            },
            InstallUpdateView::Done(_) => (self, None),
        }
    }

    open spec fn ended(self) -> bool {
        self is Done
    }

    open spec fn remaining(self) -> nat {
        match self {
            InstallUpdateView::AwaitCheck => 2,
            InstallUpdateView::AwaitInstall => 1,
            InstallUpdateView::Done(_) => 0,
        }
    }

    open spec fn refused(self) -> bool {
        self matches InstallUpdateView::Done(Err(error)) && error.is_unexpected()
    }

    proof fn lemma_resume(self, reply: ReplyView) {
    }

    proof fn lemma_takes_answers(self, reply: ReplyView, answer: ReplyView) {
    }
}

/// Installs the update that is available, if there is one.
pub fn install_update() -> (next: (InstallUpdate, Option<Effect>))
    ensures
        (next.0@, next.1.deep_view()) == install_update_spec(),
{
    (InstallUpdate::AwaitCheck, Some(Effect::CheckUpdate))
}

impl InstallUpdate {
    /// Takes the shell's reply to the pending effect and says what comes next.
    pub fn resume(self, reply: Reply) -> (next: (InstallUpdate, Option<Effect>))
        ensures
            (next.0@, next.1.deep_view()) == self@.resume(reply@),
    {
        match self {
            InstallUpdate::AwaitCheck => match reply {
                Reply::Update(response) => {
                    if response.available {
                        (InstallUpdate::AwaitInstall, Some(Effect::InstallUpdate))
                    } else {
                        (InstallUpdate::Done(Err(CommandError::NoUpdate)), None)
                    }
                },
                Reply::Failed(cause) => (
                    InstallUpdate::Done(Err(CommandError::UpdateCheck(cause))),
                    None,
                ),
                _ => (InstallUpdate::Done(Err(CommandError::UnexpectedReply)), None),
            },
            InstallUpdate::AwaitInstall => match reply {
                Reply::Done => (InstallUpdate::Done(Ok(())), None),
                Reply::Failed(cause) => (
                    InstallUpdate::Done(Err(CommandError::UpdateInstall(cause))),
                    None,
                ),
                _ => (InstallUpdate::Done(Err(CommandError::UnexpectedReply)), None),
            },
            InstallUpdate::Done(outcome) => (InstallUpdate::Done(outcome), None),
        }
    }
}

/// A check ends with the first reply and an installation after two at
/// most; and where each reply answers the effect that is pending, neither
/// ends on a reply that it could not take.
pub proof fn update_commands_end(replies: Seq<ReplyView>)
    ensures
        replies.len() >= 1 ==> course(check_update_spec(), replies).0 is Done,
        course(check_update_spec(), replies).1.len() <= 1,
        faithful(check_update_spec(), replies) ==> !course(
            check_update_spec(),
            replies,
        ).0.refused(),
        replies.len() >= 2 ==> course(install_update_spec(), replies).0 is Done,
        course(install_update_spec(), replies).1.len() <= 2,
        faithful(install_update_spec(), replies) ==> !course(
            install_update_spec(),
            replies,
        ).0.refused(),
{
    let check = check_update_spec();
    every_operation_ends(check, replies);
    if faithful(check, replies) {
        faithful_shell_is_never_refused(check, replies);
    }
    let install = install_update_spec();
    every_operation_ends(install, replies);
    if faithful(install, replies) {
        faithful_shell_is_never_refused(install, replies);
    }
}

} // verus!
