//! The vocabulary shared by every operation: the effects that an operation
//! asks the shell to perform, and the replies that the shell hands back.

use crate::dialog::{FileDialog, FileDialogView};
use vstd::prelude::*;

verus! {

/// What the update service reports on a check.
#[derive(Debug, PartialEq, Eq)]
pub struct UpdateResponse {
    pub available: bool,
    pub version: String,
    pub date: Option<String>,
    pub body: Option<String>,
}

/// The mathematical value of an [`UpdateResponse`].
pub struct UpdateResponseView {
    pub available: bool,
    pub version: Seq<char>,
    pub date: Option<Seq<char>>,
    pub body: Option<Seq<char>>,
}

impl View for UpdateResponse {
    type V = UpdateResponseView;

    open spec fn view(&self) -> UpdateResponseView {
        UpdateResponseView {
            available: self.available,
            version: self.version@,
            date: self.date.deep_view(),
            body: self.body.deep_view(),
        }
    }
}

/// One piece of work for the shell. An operation names it; it never
/// performs it.
#[derive(Debug, PartialEq, Eq)]
pub enum Effect {
    /// Ask the file system for the size of the file at `path`.
    Metadata { path: String },
    /// Ask whether anything exists at `path`.
    Exists { path: String },
    /// Create the directory `path` and every missing ancestor.
    CreateDirAll { path: String },
    /// Open the file at `path` for reading.
    Open { path: String },
    /// Read the opened file to its end, into a buffer of `capacity` bytes.
    Read { capacity: usize },
    /// Create the file at `path`, or truncate it.
    Create { path: String },
    /// Write all of `bytes` to the created file.
    Write { bytes: Vec<u8> },
    /// Flush the created file to stable storage.
    Sync,
    /// Move the file at `from` to `to`.
    Rename { from: String, to: String },
    /// Show a modal file-selection dialog and wait for its outcome.
    ShowFileDialog { request: FileDialog },
    /// Show a modal yes/no dialog and wait for its outcome.
    ShowConfirmDialog { title: String, message: String },
    /// Open `url` with the system's default handler.
    OpenUrl { url: String },
    /// Ask the update service whether an update is available.
    CheckUpdate,
    /// Download and install the update that the last check reported.
    InstallUpdate,
}

/// The mathematical value of an [`Effect`].
pub enum EffectView {
    Metadata { path: Seq<char> },
    Exists { path: Seq<char> },
    CreateDirAll { path: Seq<char> },
    Open { path: Seq<char> },
    Read { capacity: usize },
    Create { path: Seq<char> },
    Write { bytes: Seq<u8> },
    Sync,
    Rename { from: Seq<char>, to: Seq<char> },
    ShowFileDialog { request: FileDialogView },
    ShowConfirmDialog { title: Seq<char>, message: Seq<char> },
    OpenUrl { url: Seq<char> },
    CheckUpdate,
    InstallUpdate,
}

impl View for Effect {
    type V = EffectView;

    open spec fn view(&self) -> EffectView {
        match self {
            Effect::Metadata { path } => EffectView::Metadata { path: path@ },
            Effect::Exists { path } => EffectView::Exists { path: path@ },
            Effect::CreateDirAll { path } => EffectView::CreateDirAll { path: path@ },
            Effect::Open { path } => EffectView::Open { path: path@ },
            Effect::Read { capacity } => EffectView::Read { capacity: *capacity },
            Effect::Create { path } => EffectView::Create { path: path@ },
            Effect::Write { bytes } => EffectView::Write { bytes: bytes@ },
            Effect::Sync => EffectView::Sync,
            Effect::Rename { from, to } => EffectView::Rename { from: from@, to: to@ },
            Effect::ShowFileDialog { request } => EffectView::ShowFileDialog { request: request@ },
            Effect::ShowConfirmDialog { title, message } => EffectView::ShowConfirmDialog {
                title: title@,
                message: message@,
            },
            Effect::OpenUrl { url } => EffectView::OpenUrl { url: url@ },
            Effect::CheckUpdate => EffectView::CheckUpdate,
            Effect::InstallUpdate => EffectView::InstallUpdate,
        }
    }
}

impl DeepView for Effect {
    type V = EffectView;

    open spec fn deep_view(&self) -> EffectView {
        self@
    }
}

/// What the shell observed when it performed an effect.
#[derive(Debug, PartialEq, Eq)]
pub enum Reply {
    /// The file's size in bytes, as its metadata reports it.
    Size(u64),
    /// Whether something exists at the path asked about.
    Exists(bool),
    /// The effect succeeded and has nothing to report.
    Done,
    /// Everything that was read from the file.
    Content(Vec<u8>),
    /// The effect failed; the text describes the underlying error.
    Failed(String),
    /// The file dialog resolved: the chosen path, or none if the user cancelled.
    Selection(Option<String>),
    /// The confirmation dialog resolved with the user's answer.
    Answer(bool),
    /// The dialog's channel closed before any outcome was delivered.
    Disconnected,
    /// The update service answered a check.
    Update(UpdateResponse),
}

/// The mathematical value of a [`Reply`].
pub enum ReplyView {
    Size(u64),
    Exists(bool),
    Done,
    Content(Seq<u8>),
    Failed(Seq<char>),
    Selection(Option<Seq<char>>),
    Answer(bool),
    Disconnected,
    Update(UpdateResponseView),
}

impl View for Reply {
    type V = ReplyView;

    open spec fn view(&self) -> ReplyView {
        match self {
            Reply::Size(size) => ReplyView::Size(*size),
            Reply::Exists(exists) => ReplyView::Exists(*exists),
            Reply::Done => ReplyView::Done,
            Reply::Content(bytes) => ReplyView::Content(bytes@),
            Reply::Failed(cause) => ReplyView::Failed(cause@),
            Reply::Selection(path) => ReplyView::Selection(path.deep_view()),
            Reply::Answer(answer) => ReplyView::Answer(*answer),
            Reply::Disconnected => ReplyView::Disconnected,
            Reply::Update(response) => ReplyView::Update(response@),
        }
    }
}

/// Whether `reply` is something that the shell can answer `effect` with.
pub open spec fn answers(effect: EffectView, reply: ReplyView) -> bool {
    match effect {
        EffectView::Metadata { .. } => reply is Size || reply is Failed,
        EffectView::Exists { .. } => reply is Exists,
        EffectView::Read { .. } => reply is Content || reply is Failed,
        EffectView::ShowFileDialog { .. } => reply is Selection || reply is Disconnected,
        EffectView::ShowConfirmDialog { .. } => reply is Answer || reply is Disconnected,
        EffectView::CheckUpdate => reply is Update || reply is Failed,
        _ => reply is Done || reply is Failed,
    }
}

/// The mathematical side of an operation: a state that takes the shell's
/// reply to the pending effect and says what comes next.
pub trait Machine: Sized {
    /// The state after `reply`, and the effect asked for next, if any.
    spec fn resume(self, reply: ReplyView) -> (Self, Option<EffectView>);

    /// Whether the operation has ended, with a result or an error.
    spec fn ended(self) -> bool;

    /// A bound on the number of replies that the operation still takes
    /// before it ends.
    spec fn remaining(self) -> nat;

    /// Whether the operation has ended because a reply did not fit the
    /// effect that was pending.
    spec fn refused(self) -> bool;

    /// An operation asks for nothing more exactly when it has ended; one
    /// that has ended never changes again; and every reply brings one that
    /// has not ended closer to its end.
    proof fn lemma_resume(self, reply: ReplyView)
        ensures
            self.resume(reply).1 is None <==> self.resume(reply).0.ended(),
            self.ended() ==> self.resume(reply).0 == self,
            self.ended() <==> self.remaining() == 0,
            !self.ended() ==> self.resume(reply).0.remaining() < self.remaining(),
            self.refused() ==> self.ended(),
    ;

    /// An operation takes every answer to what it asks for: after it has
    /// asked for an effect, no reply that answers that effect is refused.
    proof fn lemma_takes_answers(self, reply: ReplyView, answer: ReplyView)
        ensures
            self.resume(reply).1 matches Some(effect) && answers(effect, answer)
                ==> !self.resume(reply).0.resume(answer).0.refused(),
    ;
}

/// Whether the state of `step` takes every answer to the effect of `step`.
pub open spec fn takes_answers<M: Machine>(step: (M, Option<EffectView>)) -> bool {
    forall|answer: ReplyView|
        step.1 matches Some(effect) && answers(effect, answer) ==> !(#[trigger] step.0.resume(
            answer,
        )).0.refused()
}

/// Whether each of `replies` answers the effect that is pending when it
/// comes, from the step `step` on.
pub open spec fn faithful<M: Machine>(step: (M, Option<EffectView>), replies: Seq<ReplyView>) -> bool
    decreases replies.len(),
{
    replies.len() > 0 ==> {
        &&& step.1 matches Some(effect) ==> answers(effect, replies.first())
        &&& faithful(step.0.resume(replies.first()), replies.drop_first())
    }
}

/// Where an operation stands after the shell's `replies`, one after the
/// other, and the effects that it asked for on the way.
pub open spec fn run<M: Machine>(state: M, replies: Seq<ReplyView>) -> (M, Seq<EffectView>)
    decreases replies.len(),
{
    if replies.len() == 0 {
        (state, Seq::empty())
    } else {
        let next = state.resume(replies.first());
        let rest = run(next.0, replies.drop_first());
        (
            rest.0,
            match next.1 {
                Some(effect) => seq![effect] + rest.1,
                None => rest.1,
            },
        )
    }
}

/// The whole course of an operation from its first step `start`: the final
/// state, and every effect asked for, the first one included.
pub open spec fn course<M: Machine>(start: (M, Option<EffectView>), replies: Seq<ReplyView>) -> (
    M,
    Seq<EffectView>,
) {
    let rest = run(start.0, replies);
    (
        rest.0,
        match start.1 {
            Some(effect) => seq![effect] + rest.1,
            None => rest.1,
        },
    )
}

/// Once an operation has ended, no reply changes it or makes it ask for
/// anything.
pub proof fn lemma_run_ended<M: Machine>(state: M, replies: Seq<ReplyView>)
    requires
        state.ended(),
    ensures
        run(state, replies) == (state, Seq::<EffectView>::empty()),
    decreases replies.len(),
{
    if replies.len() > 0 {
        state.lemma_resume(replies.first());
        lemma_run_ended(state, replies.drop_first());
    }
}

/// A run over `first` and then `rest` is one step followed by a run over `rest`.
pub proof fn lemma_run_step<M: Machine>(state: M, first: ReplyView, rest: Seq<ReplyView>)
    ensures
        run(state, seq![first] + rest) == ({
            let next = state.resume(first);
            let tail = run(next.0, rest);
            (
                tail.0,
                match next.1 {
                    Some(effect) => seq![effect] + tail.1,
                    None => tail.1,
                },
            )
        }),
{
    let replies = seq![first] + rest;
    assert(replies.drop_first() =~= rest);
}

/// Whether `start` is a first step that the laws of operations apply to:
/// its state has not refused anything, it takes every answer to what it
/// asks for, and it asks for nothing exactly when it has ended.
pub open spec fn sound_start<M: Machine>(start: (M, Option<EffectView>)) -> bool {
    &&& !start.0.refused()
    &&& takes_answers(start)
    &&& start.1 is None <==> start.0.ended()
}

proof fn lemma_run_bound<M: Machine>(state: M, replies: Seq<ReplyView>)
    ensures
        replies.len() >= state.remaining() ==> run(state, replies).0.ended(),
        run(state, replies).1.len() + 1 <= state.remaining() || run(state, replies).1.len() == 0,
    decreases replies.len(),
{
    state.lemma_resume(ReplyView::Done);
    if replies.len() > 0 {
        let next = state.resume(replies.first());
        state.lemma_resume(replies.first());
        next.0.lemma_resume(ReplyView::Done);
        if state.ended() {
            lemma_run_ended(state, replies);
        } else {
            lemma_run_bound(next.0, replies.drop_first());
        }
    }
}

/// Every operation ends: once the shell has given as many replies as the
/// bound of the first state says, whatever they are, the operation has
/// ended; and it never asks for more effects than that bound.
pub proof fn every_operation_ends<M: Machine>(
    start: (M, Option<EffectView>),
    replies: Seq<ReplyView>,
)
    requires
        start.1 is None <==> start.0.ended(),
    ensures
        replies.len() >= start.0.remaining() ==> course(start, replies).0.ended(),
        course(start, replies).1.len() <= start.0.remaining(),
{
    lemma_run_bound(start.0, replies);
    start.0.lemma_resume(ReplyView::Done);
}

proof fn lemma_faithful_run<M: Machine>(step: (M, Option<EffectView>), replies: Seq<ReplyView>)
    requires
        sound_start(step),
        faithful(step, replies),
    ensures
        !run(step.0, replies).0.refused(),
    decreases replies.len(),
{
    if replies.len() > 0 {
        let first = replies.first();
        let next = step.0.resume(first);
        step.0.lemma_resume(first);
        if step.0.ended() {
            lemma_run_ended(step.0, replies);
        } else {
            assert forall|answer: ReplyView|
                next.1 matches Some(effect) && answers(effect, answer) implies !(
            #[trigger] next.0.resume(answer)).0.refused() by {
                step.0.lemma_takes_answers(first, answer);
            }
            lemma_faithful_run(next, replies.drop_first());
        }
    }
}

/// A shell that answers each effect with a reply that fits it is never
/// refused: the operation does not end on a reply that it could not take.
pub proof fn faithful_shell_is_never_refused<M: Machine>(
    start: (M, Option<EffectView>),
    replies: Seq<ReplyView>,
)
    requires
        sound_start(start),
        faithful(start, replies),
    ensures
        !course(start, replies).0.refused(),
{
    lemma_faithful_run(start, replies);
}

} // verus!
