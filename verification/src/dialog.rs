//! The dialog bridge: a modal dialog that resolves at some later time, on
//! some other thread, seen as one request and one outcome.

use crate::protocol::{
    course, faithful, faithful_shell_is_never_refused, lemma_run_ended, lemma_run_step, Effect,
    EffectView, Machine, Reply, ReplyView,
};
use vstd::prelude::*;
use vstd::string::*;

verus! {

/// A dialog filter: a label and the file extensions that it admits.
#[derive(Debug, PartialEq, Eq)]
pub struct FileFilter {
    pub name: String,
    pub extensions: Vec<String>,
}

/// The mathematical value of a [`FileFilter`].
pub struct FileFilterView {
    pub name: Seq<char>,
    pub extensions: Seq<Seq<char>>,
}

impl View for FileFilter {
    type V = FileFilterView;

    open spec fn view(&self) -> FileFilterView {
        FileFilterView { name: self.name@, extensions: self.extensions.deep_view() }
    }
}

impl DeepView for FileFilter {
    type V = FileFilterView;

    open spec fn deep_view(&self) -> FileFilterView {
        self@
    }
}

/// Whether a file dialog picks an existing file or a place to save one.
#[derive(Clone, Copy, Debug, PartialEq, Eq)]
pub enum DialogMode {
    Open,
    Save,
}

/// Everything the shell needs to show a file-selection dialog.
#[derive(Debug, PartialEq, Eq)]
pub struct FileDialog {
    pub mode: DialogMode,
    pub filters: Vec<FileFilter>,
    pub file_name: Option<String>,
}

/// The mathematical value of a [`FileDialog`].
pub struct FileDialogView {
    pub mode: DialogMode,
    pub filters: Seq<FileFilterView>,
    pub file_name: Option<Seq<char>>,
}

impl View for FileDialog {
    type V = FileDialogView;

    open spec fn view(&self) -> FileDialogView {
        FileDialogView {
            mode: self.mode,
            filters: self.filters.deep_view(),
            file_name: self.file_name.deep_view(),
        }
    }
}

/// The filters that the shell is configured with: the filter for text
/// files, and the label of the filter that admits every file.
#[derive(Debug, PartialEq, Eq)]
pub struct DialogConfig {
    pub text_filter: FileFilter,
    pub all_files_label: String,
}

/// The mathematical value of a [`DialogConfig`].
pub struct DialogConfigView {
    pub text_filter: FileFilterView,
    pub all_files_label: Seq<char>,
}

impl View for DialogConfig {
    type V = DialogConfigView;

    open spec fn view(&self) -> DialogConfigView {
        DialogConfigView {
            text_filter: self.text_filter@,
            all_files_label: self.all_files_label@,
        }
    }
}

/// The filter that admits every file, under the label `label`.
pub open spec fn all_files_filter(label: Seq<char>) -> FileFilterView {
    FileFilterView { name: label, extensions: seq!["*"@] }
}

/// The request for a file dialog: the text filter first, then the filter
/// for all files, and the file name that the dialog starts with, if any.
pub open spec fn file_dialog_spec(
    mode: DialogMode,
    config: DialogConfigView,
    file_name: Option<Seq<char>>,
) -> FileDialogView {
    FileDialogView {
        mode,
        filters: seq![config.text_filter, all_files_filter(config.all_files_label)],
        file_name,
    }
}

/// Why a dialog gave no outcome.
#[derive(Clone, Copy, Debug, PartialEq, Eq)]
pub enum DialogError {
    /// The channel closed before the dialog delivered anything.
    Disconnected,
    /// The shell answered with a reply that a dialog cannot have.
    UnexpectedReply,
}

impl DialogError {
    /// The text shown to the user for this error.
    pub open spec fn message_spec(self) -> Seq<char> {
        match self {
            DialogError::Disconnected => "Error al recibir la respuesta del diálogo"@,
            DialogError::UnexpectedReply => "Respuesta inesperada del diálogo"@,
        }
    }

    /// The text shown to the user for this error.
    pub fn message(&self) -> (text: String)
        ensures
            text@ == self.message_spec(),
    {
        match self {
            DialogError::Disconnected => String::from_str(
                "Error al recibir la respuesta del diálogo",
            ),
            DialogError::UnexpectedReply => String::from_str("Respuesta inesperada del diálogo"),
        }
    }
}

/// A file dialog on its way: shown and not yet resolved, or delivered.
#[derive(Debug, PartialEq, Eq)]
pub enum FileSelection {
    /// The dialog is on screen and the caller waits.
    Shown,
    /// The outcome reached the caller: the chosen path, none where the user
    /// cancelled, or the reason why nothing came.
    Delivered(Result<Option<String>, DialogError>),
}

/// The mathematical value of a [`FileSelection`].
pub enum FileSelectionView {
    Shown,
    Delivered(Result<Option<Seq<char>>, DialogError>),
}

impl View for FileSelection {
    type V = FileSelectionView;

    open spec fn view(&self) -> FileSelectionView {
        match self {
            FileSelection::Shown => FileSelectionView::Shown,
            FileSelection::Delivered(Ok(path)) => FileSelectionView::Delivered(
                Ok(path.deep_view()),
            ),
            FileSelection::Delivered(Err(error)) => FileSelectionView::Delivered(Err(*error)),
        }
    }
}

/// What a waiting file dialog makes of a reply: a selection is the outcome,
/// cancelled or not; a closed channel is a communication failure.
pub open spec fn selection_outcome(reply: ReplyView) -> Result<Option<Seq<char>>, DialogError> {
    match reply {
        ReplyView::Selection(path) => Ok(path),
        ReplyView::Disconnected => Err(DialogError::Disconnected),
        _ => Err(DialogError::UnexpectedReply),
    }
}

impl Machine for FileSelectionView {
    /// The first reply is delivered, and nothing is shown again.
    open spec fn resume(self, reply: ReplyView) -> (FileSelectionView, Option<EffectView>) {
        match self {
            FileSelectionView::Shown => (
                FileSelectionView::Delivered(selection_outcome(reply)),
                None,
            ),
            FileSelectionView::Delivered(_) => (self, None),
        }
    }

    open spec fn ended(self) -> bool {
        self is Delivered
    }

    open spec fn remaining(self) -> nat {
        match self {
            FileSelectionView::Shown => 1,
            FileSelectionView::Delivered(_) => 0,
        }
    }

    open spec fn refused(self) -> bool {
        self == FileSelectionView::Delivered(Err(DialogError::UnexpectedReply))
    }

    proof fn lemma_resume(self, reply: ReplyView) {
    }

    proof fn lemma_takes_answers(self, reply: ReplyView, answer: ReplyView) {
    }
}

/// How a dialog that picks a file to open starts: it is shown.
pub open spec fn show_open_dialog_spec(config: DialogConfigView) -> (
    FileSelectionView,
    Option<EffectView>,
) {
    (
        FileSelectionView::Shown,
        Some(
            EffectView::ShowFileDialog { request: file_dialog_spec(DialogMode::Open, config, None) },
        ),
    )
}

/// How a dialog that picks where to save starts: it is shown, with
/// `default_filename` in its file name field.
pub open spec fn show_save_dialog_spec(
    config: DialogConfigView,
    default_filename: Option<Seq<char>>,
) -> (FileSelectionView, Option<EffectView>) {
    (
        FileSelectionView::Shown,
        Some(
            EffectView::ShowFileDialog {
                request: file_dialog_spec(DialogMode::Save, config, default_filename),
            },
        ),
    )
}

fn file_dialog(mode: DialogMode, config: DialogConfig, file_name: Option<String>) -> (request:
    FileDialog)
    ensures
        request@ == file_dialog_spec(mode, config@, file_name.deep_view()),
{
    let mut extensions: Vec<String> = Vec::new();
    extensions.push(String::from_str("*"));
    assert(extensions.deep_view() =~= seq!["*"@]);
    let all_files = FileFilter { name: config.all_files_label, extensions };
    let mut filters: Vec<FileFilter> = Vec::new();
    filters.push(config.text_filter);
    filters.push(all_files);
    assert(filters.deep_view() =~= seq![
        config@.text_filter,
        all_files_filter(config@.all_files_label),
    ]);
    FileDialog { mode, filters, file_name }
}

/// Shows the dialog that picks a file to open.
pub fn show_open_dialog(config: DialogConfig) -> (next: (FileSelection, Option<Effect>))
    ensures
        (next.0@, next.1.deep_view()) == show_open_dialog_spec(config@),
{
    let request = file_dialog(DialogMode::Open, config, None);
    (FileSelection::Shown, Some(Effect::ShowFileDialog { request }))
}

/// Shows the dialog that picks where to save, with `default_filename` in
/// its file name field.
pub fn show_save_dialog(config: DialogConfig, default_filename: Option<&str>) -> (next: (
    FileSelection,
    Option<Effect>,
))
    ensures
        (next.0@, next.1.deep_view()) == show_save_dialog_spec(
            config@,
            default_filename.deep_view(),
        ),
{
    let file_name = match default_filename {
        Some(name) => Some(String::from_str(name)),
        None => None,
    };
    let request = file_dialog(DialogMode::Save, config, file_name);
    (FileSelection::Shown, Some(Effect::ShowFileDialog { request }))
}

impl FileSelection {
    /// Takes the shell's reply to the dialog and delivers the outcome.
    pub fn resume(self, reply: Reply) -> (next: (FileSelection, Option<Effect>))
        ensures
            (next.0@, next.1.deep_view()) == self@.resume(reply@),
    {
        match self {
            FileSelection::Shown => {
                let outcome = match reply {
                    Reply::Selection(path) => Ok(path),
                    Reply::Disconnected => Err(DialogError::Disconnected),
                    _ => Err(DialogError::UnexpectedReply),
                };
                (FileSelection::Delivered(outcome), None)
            },
            FileSelection::Delivered(outcome) => (FileSelection::Delivered(outcome), None),
        }
    }
}

/// A confirmation dialog on its way: shown and not yet answered, or delivered.
#[derive(Clone, Copy, Debug, PartialEq, Eq)]
pub enum Confirmation {
    /// The dialog is on screen and the caller waits.
    Shown,
    /// The outcome reached the caller: the user's answer, or the reason why
    /// nothing came.
    Delivered(Result<bool, DialogError>),
}

impl View for Confirmation {
    type V = Confirmation;

    open spec fn view(&self) -> Confirmation {
        *self
    }
}

/// What a waiting confirmation dialog makes of a reply: an answer, yes or
/// no, is the outcome; a closed channel is a communication failure.
pub open spec fn confirmation_outcome(reply: ReplyView) -> Result<bool, DialogError> {
    match reply {
        ReplyView::Answer(answer) => Ok(answer),
        ReplyView::Disconnected => Err(DialogError::Disconnected),
        _ => Err(DialogError::UnexpectedReply),
    }
}

impl Machine for Confirmation {
    /// The first reply is delivered, and nothing is shown again.
    open spec fn resume(self, reply: ReplyView) -> (Confirmation, Option<EffectView>) {
        match self {
            Confirmation::Shown => (Confirmation::Delivered(confirmation_outcome(reply)), None),
            Confirmation::Delivered(_) => (self, None),
        }
    }

    open spec fn ended(self) -> bool {
        self is Delivered
    }

    open spec fn remaining(self) -> nat {
        match self {
            Confirmation::Shown => 1,
            Confirmation::Delivered(_) => 0,
        }
    }

    open spec fn refused(self) -> bool {
        self == Confirmation::Delivered(Err(DialogError::UnexpectedReply))
    }

    proof fn lemma_resume(self, reply: ReplyView) {
    }

    proof fn lemma_takes_answers(self, reply: ReplyView, answer: ReplyView) {
    }
}

impl Confirmation {
    /// Takes the shell's reply to the dialog and delivers the outcome.
    pub fn resume(self, reply: Reply) -> (next: (Confirmation, Option<Effect>))
        ensures
            (next.0, next.1.deep_view()) == Machine::resume(self, reply@),
    {
        match self {
            Confirmation::Shown => {
                let outcome = match reply {
                    Reply::Answer(answer) => Ok(answer),
                    Reply::Disconnected => Err(DialogError::Disconnected),
                    _ => Err(DialogError::UnexpectedReply),
                };
                (Confirmation::Delivered(outcome), None)
            },
            Confirmation::Delivered(outcome) => (Confirmation::Delivered(outcome), None),
        }
    }
}

/// A file dialog is shown exactly once and delivers exactly one outcome:
/// whatever the shell says after the first reply, the only effect ever
/// asked for is the one that shows the dialog, and the outcome is the one
/// that the first reply carried.
pub proof fn file_dialog_delivers_once(
    config: DialogConfigView,
    default_filename: Option<Seq<char>>,
    reply: ReplyView,
    later: Seq<ReplyView>,
)
    ensures
        course(show_open_dialog_spec(config), seq![reply] + later) == (
            FileSelectionView::Delivered(selection_outcome(reply)),
            seq![show_open_dialog_spec(config).1->0],
        ),
        course(show_save_dialog_spec(config, default_filename), seq![reply] + later) == (
            FileSelectionView::Delivered(selection_outcome(reply)),
            seq![show_save_dialog_spec(config, default_filename).1->0],
        ),
{
    let delivered = FileSelectionView::Delivered(selection_outcome(reply));
    lemma_run_step(FileSelectionView::Shown, reply, later);
    lemma_run_ended(delivered, later);
}

/// A channel that closes before the dialog has resolved ends the wait with
/// the communication error, and that error is not the outcome of any
/// dialog that did resolve: a cancelled selection is a result.
pub proof fn closed_channel_is_a_communication_error(
    config: DialogConfigView,
    default_filename: Option<Seq<char>>,
    later: Seq<ReplyView>,
)
    ensures
        course(show_open_dialog_spec(config), seq![ReplyView::Disconnected] + later).0
            == FileSelectionView::Delivered(Err(DialogError::Disconnected)),
        course(
            show_save_dialog_spec(config, default_filename),
            seq![ReplyView::Disconnected] + later,
        ).0 == FileSelectionView::Delivered(Err(DialogError::Disconnected)),
        course(show_open_dialog_spec(config), seq![ReplyView::Selection(None)] + later).0
            == FileSelectionView::Delivered(Ok(None)),
{
    file_dialog_delivers_once(config, default_filename, ReplyView::Disconnected, later);
    file_dialog_delivers_once(config, default_filename, ReplyView::Selection(None), later);
}

/// Where the reply to a file dialog is a selection or the word that the
/// channel closed, the dialog does not end on a reply that it could not take.
pub proof fn file_dialog_takes_its_answers(
    config: DialogConfigView,
    default_filename: Option<Seq<char>>,
    replies: Seq<ReplyView>,
)
    ensures
        faithful(show_open_dialog_spec(config), replies) ==> course(
            show_open_dialog_spec(config),
            replies,
        ).0 != FileSelectionView::Delivered(Err(DialogError::UnexpectedReply)),
        faithful(show_save_dialog_spec(config, default_filename), replies) ==> course(
            show_save_dialog_spec(config, default_filename),
            replies,
        ).0 != FileSelectionView::Delivered(Err(DialogError::UnexpectedReply)),
{
    let open = show_open_dialog_spec(config);
    if faithful(open, replies) {
        faithful_shell_is_never_refused(open, replies);
    }
    let save = show_save_dialog_spec(config, default_filename);
    if faithful(save, replies) {
        faithful_shell_is_never_refused(save, replies);
    }
}

} // verus!
