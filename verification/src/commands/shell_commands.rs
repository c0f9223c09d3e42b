//! The command that hands an address to the operating system.

use crate::commands::{CommandError, CommandErrorView};
use crate::protocol::{
    course, every_operation_ends, faithful, faithful_shell_is_never_refused, Effect, EffectView,
    Machine, Reply, ReplyView,
};
use crate::text::{trim, trimmed};
use vstd::prelude::*;

verus! {

/// An address on its way to the system's browser, or how that ended.
#[derive(Debug, PartialEq, Eq)]
pub enum OpenUrl {
    /// The system was asked to open the address.
    AwaitOpen,
    /// The command ended.
    Done(Result<(), CommandError>),
}

/// The mathematical value of an [`OpenUrl`].
pub enum OpenUrlView {
    AwaitOpen,
    Done(Result<(), CommandErrorView>),
}

impl View for OpenUrl {
    type V = OpenUrlView;

    open spec fn view(&self) -> OpenUrlView {
        match self {
            OpenUrl::AwaitOpen => OpenUrlView::AwaitOpen,
            OpenUrl::Done(Ok(())) => OpenUrlView::Done(Ok(())),
            OpenUrl::Done(Err(error)) => OpenUrlView::Done(Err(error@)),
        }
    }
}

/// How the command starts: an address that is blank is refused at once;
/// any other is handed to the system as it was given.
pub open spec fn open_url_in_browser_spec(url: Seq<char>) -> (OpenUrlView, Option<EffectView>) {
    if trimmed(url).len() == 0 {
        (OpenUrlView::Done(Err(CommandErrorView::EmptyUrl)), None)
    } else {
        (OpenUrlView::AwaitOpen, Some(EffectView::OpenUrl { url }))
    }
}

impl Machine for OpenUrlView {
    /// The command ends with success when the system opened the address,
    /// and with the system's description when it did not.
    open spec fn resume(self, reply: ReplyView) -> (OpenUrlView, Option<EffectView>) {
        match self {
            OpenUrlView::AwaitOpen => match reply {
                ReplyView::Done => (OpenUrlView::Done(Ok(())), None),
                ReplyView::Failed(cause) => (
                    OpenUrlView::Done(Err(CommandErrorView::Shell(cause))),
                    None,
                ),
                _ => (OpenUrlView::Done(Err(CommandErrorView::UnexpectedReply)), None),
            },
            OpenUrlView::Done(_) => (self, None),
        }
    }

    open spec fn ended(self) -> bool {
        self is Done
    }

    open spec fn remaining(self) -> nat {
        match self {
            OpenUrlView::AwaitOpen => 1,
            OpenUrlView::Done(_) => 0,
        }
    }

    open spec fn refused(self) -> bool {
        self matches OpenUrlView::Done(Err(error)) && error.is_unexpected()
    }

    proof fn lemma_resume(self, reply: ReplyView) {
    }

    proof fn lemma_takes_answers(self, reply: ReplyView, answer: ReplyView) {
    }
}

/// Opens `url` in the system's default browser.
pub fn open_url_in_browser(url: String) -> (next: (OpenUrl, Option<Effect>))
    ensures
        (next.0@, next.1.deep_view()) == open_url_in_browser_spec(url@),
{
    if trim(url.as_str()).is_empty() {
        (OpenUrl::Done(Err(CommandError::EmptyUrl)), None)
    } else {
        (OpenUrl::AwaitOpen, Some(Effect::OpenUrl { url }))
    }
}

impl OpenUrl {
    /// Takes the shell's reply to the pending effect and says what comes next.
    pub fn resume(self, reply: Reply) -> (next: (OpenUrl, Option<Effect>))
        ensures
            (next.0@, next.1.deep_view()) == self@.resume(reply@),
    {
        match self {
            OpenUrl::AwaitOpen => match reply {
                Reply::Done => (OpenUrl::Done(Ok(())), None),
                Reply::Failed(cause) => (OpenUrl::Done(Err(CommandError::Shell(cause))), None),
                _ => (OpenUrl::Done(Err(CommandError::UnexpectedReply)), None),
            },
            OpenUrl::Done(outcome) => (OpenUrl::Done(outcome), None),
        }
    }
}

/// The command ends with the first reply; and where the reply answers the
/// effect that is pending, it is taken.
pub proof fn open_url_ends(url: Seq<char>, replies: Seq<ReplyView>)
    ensures
        replies.len() >= 1 ==> course(open_url_in_browser_spec(url), replies).0 is Done,
        course(open_url_in_browser_spec(url), replies).1.len() <= 1,
        faithful(open_url_in_browser_spec(url), replies) ==> !course(
            open_url_in_browser_spec(url),
            replies,
        ).0.refused(),
{
    let start = open_url_in_browser_spec(url);
    every_operation_ends(start, replies);
    if faithful(start, replies) {
        faithful_shell_is_never_refused(start, replies);
    }
}

} // verus!
