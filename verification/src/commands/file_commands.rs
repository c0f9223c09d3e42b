//! The file commands: open, save, save as, rename, and confirm.

use crate::commands::{CommandError, CommandErrorView};
use crate::dialog::{
    confirmation_outcome, show_open_dialog, show_open_dialog_spec, show_save_dialog,
    show_save_dialog_spec, Confirmation, DialogConfig, DialogConfigView, DialogError,
    FileSelection, FileSelectionView,
};
use crate::file_ops::{
    directory_named_by, named_directory, read_file, read_file_spec, write_file, write_file_in,
    write_file_in_spec, write_file_spec, ReadFile, ReadFileView, RenameFile, RenameFileView,
    WriteFile, WriteFileView, MAX_FILE_SIZE,
};
use crate::path::{file_name, join, parent, path_file_name, path_join, path_parent};
use crate::protocol::{
    course, every_operation_ends, faithful, faithful_shell_is_never_refused, lemma_run_ended,
    lemma_run_step, run, Effect, EffectView, Machine, Reply, ReplyView,
};
use crate::text::{is_blank, lemma_trimmed_empty_iff_blank, trim, trimmed};
use vstd::prelude::*;
use vstd::string::*;
use vstd::utf8::*;

verus! {

/// A file that was opened: its text, and the path it was read from.
#[derive(Debug, PartialEq, Eq)]
pub struct OpenedFile {
    pub content: String,
    pub path: String,
}

/// The mathematical value of an [`OpenedFile`].
pub struct OpenedFileView {
    pub content: Seq<char>,
    pub path: Seq<char>,
}

impl View for OpenedFile {
    type V = OpenedFileView;

    open spec fn view(&self) -> OpenedFileView {
        OpenedFileView { content: self.content@, path: self.path@ }
    }
}

/// The command "open" in progress, or how it ended.
#[derive(Debug, PartialEq, Eq)]
pub enum OpenFile {
    /// The file dialog is on screen.
    Picking { selection: FileSelection },
    /// The chosen file is being read.
    Reading { path: String, read: ReadFile },
    /// The command ended.
    Done(Result<OpenedFile, CommandError>),
}

/// The mathematical value of an [`OpenFile`].
pub enum OpenFileView {
    Picking { selection: FileSelectionView },
    Reading { path: Seq<char>, read: ReadFileView },
    Done(Result<OpenedFileView, CommandErrorView>),
}

impl View for OpenFile {
    type V = OpenFileView;

    open spec fn view(&self) -> OpenFileView {
        match self {
            OpenFile::Picking { selection } => OpenFileView::Picking { selection: selection@ },
            OpenFile::Reading { path, read } => OpenFileView::Reading { path: path@, read: read@ },
            OpenFile::Done(Ok(file)) => OpenFileView::Done(Ok(file@)),
            OpenFile::Done(Err(error)) => OpenFileView::Done(Err(error@)),
        }
    }
}

/// How "open" starts: by showing the dialog that picks a file.
pub open spec fn open_file_spec(config: DialogConfigView) -> (OpenFileView, Option<EffectView>) {
    let shown = show_open_dialog_spec(config);
    (OpenFileView::Picking { selection: shown.0 }, shown.1)
}

impl OpenFileView {
    /// The command has ended with `outcome` and asks for nothing more.
    pub open spec fn finished(outcome: Result<OpenedFileView, CommandErrorView>) -> (
        OpenFileView,
        Option<EffectView>,
    ) {
        (OpenFileView::Done(outcome), None)
    }

    /// What "open" makes of a step of the dialog: a chosen path starts the
    /// read of that file; a cancelled dialog and a failed one end the
    /// command.
    pub open spec fn picking(step: (FileSelectionView, Option<EffectView>)) -> (
        OpenFileView,
        Option<EffectView>,
    ) {
        match step.0 {
            FileSelectionView::Delivered(Ok(Some(path))) => Self::reading(
                path,
                read_file_spec(path),
            ),
            FileSelectionView::Delivered(Ok(None)) => Self::finished(
                Err(CommandErrorView::NoFileSelected),
            ),
            FileSelectionView::Delivered(Err(error)) => Self::finished(
                Err(CommandErrorView::Dialog(error)),
            ),
            FileSelectionView::Shown => (OpenFileView::Picking { selection: step.0 }, step.1),
        }
    }

    /// What "open" makes of a step of the read of `path`: the text that was
    /// read ends the command, together with the path; an error of the read
    /// ends it too.
    pub open spec fn reading(path: Seq<char>, step: (ReadFileView, Option<EffectView>)) -> (
        OpenFileView,
        Option<EffectView>,
    ) {
        match step.0 {
            ReadFileView::Done(Ok(content)) => Self::finished(Ok(OpenedFileView { content, path })),
            ReadFileView::Done(Err(error)) => Self::finished(Err(CommandErrorView::File(error))),
            _ => (OpenFileView::Reading { path, read: step.0 }, step.1),
        }
    }
}

impl Machine for OpenFileView {
    /// The reply goes to the dialog while it is on screen, and to the read
    /// after that.
    open spec fn resume(self, reply: ReplyView) -> (OpenFileView, Option<EffectView>) {
        match self {
            OpenFileView::Picking { selection } => Self::picking(selection.resume(reply)),
            OpenFileView::Reading { path, read } => Self::reading(path, read.resume(reply)),
            OpenFileView::Done(_) => (self, None),
        }
    }

    open spec fn ended(self) -> bool {
        self is Done
    }

    open spec fn remaining(self) -> nat {
        match self {
            OpenFileView::Picking { .. } => 5,
            OpenFileView::Reading { read, .. } => read.remaining() + 1,
            OpenFileView::Done(_) => 0,
        }
    }

    open spec fn refused(self) -> bool {
        self matches OpenFileView::Done(Err(error)) && error.is_unexpected()
    }

    proof fn lemma_resume(self, reply: ReplyView) {
        match self {
            OpenFileView::Picking { selection } => selection.lemma_resume(reply),
            OpenFileView::Reading { path, read } => read.lemma_resume(reply),
            OpenFileView::Done(_) => {},
        }
    }

    proof fn lemma_takes_answers(self, reply: ReplyView, answer: ReplyView) {
    }
}

/// Lets the user pick a file and reads it.
pub fn open_file(config: DialogConfig) -> (next: (OpenFile, Option<Effect>))
    ensures
        (next.0@, next.1.deep_view()) == open_file_spec(config@),
{
    let (selection, effect) = show_open_dialog(config);
    (OpenFile::Picking { selection }, effect)
}

impl OpenFile {
    /// Takes the shell's reply to the pending effect and says what comes next.
    pub fn resume(self, reply: Reply) -> (next: (OpenFile, Option<Effect>))
        ensures
            (next.0@, next.1.deep_view()) == self@.resume(reply@),
    {
        match self {
            OpenFile::Picking { selection } => {
                let (selection, effect) = selection.resume(reply);
                match selection {
                    FileSelection::Delivered(Ok(Some(path))) => {
                        let (read, effect) = read_file(path.clone());
                        Self::reading(path, read, effect)
                    },
                    FileSelection::Delivered(Ok(None)) => (
                        OpenFile::Done(Err(CommandError::NoFileSelected)),
                        None,
                    ),
                    FileSelection::Delivered(Err(error)) => (
                        OpenFile::Done(Err(CommandError::Dialog(error))),
                        None,
                    ),
                    FileSelection::Shown => (OpenFile::Picking { selection }, effect),
                }
            },
            OpenFile::Reading { path, read } => {
                let (read, effect) = read.resume(reply);
                Self::reading(path, read, effect)
            },
            OpenFile::Done(outcome) => (OpenFile::Done(outcome), None),
        }
    }

    fn reading(path: String, read: ReadFile, effect: Option<Effect>) -> (next: (
        OpenFile,
        Option<Effect>,
    ))
        ensures
            (next.0@, next.1.deep_view()) == OpenFileView::reading(
                path@,
                (read@, effect.deep_view()),
            ),
    {
        match read {
            ReadFile::Done(Ok(content)) => (OpenFile::Done(Ok(OpenedFile { content, path })), None),
            ReadFile::Done(Err(error)) => (OpenFile::Done(Err(CommandError::File(error))), None),
            _ => (OpenFile::Reading { path, read }, effect),
        }
    }
}

/// A save in progress, or how it ended: the command "save", and the
/// command "save as" once its dialog has resolved.
#[derive(Debug, PartialEq, Eq)]
pub enum SaveFile {
    /// The shell was asked whether the directory to save in exists.
    AwaitParent { path: String, content: String, parent: String },
    /// The dialog that picks where to save is on screen.
    Picking { content: String, selection: FileSelection },
    /// The file is being written.
    Writing { path: String, write: WriteFile },
    /// The command ended, with the path that was written to or an error.
    Done(Result<String, CommandError>),
}

/// The mathematical value of a [`SaveFile`].
pub enum SaveFileView {
    AwaitParent { path: Seq<char>, content: Seq<char>, parent: Seq<char> },
    Picking { content: Seq<char>, selection: FileSelectionView },
    Writing { path: Seq<char>, write: WriteFileView },
    Done(Result<Seq<char>, CommandErrorView>),
}

impl View for SaveFile {
    type V = SaveFileView;

    open spec fn view(&self) -> SaveFileView {
        match self {
            SaveFile::AwaitParent { path, content, parent } => SaveFileView::AwaitParent {
                path: path@,
                content: content@,
                parent: parent@,
            },
            SaveFile::Picking { content, selection } => SaveFileView::Picking {
                content: content@,
                selection: selection@,
            },
            SaveFile::Writing { path, write } => SaveFileView::Writing {
                path: path@,
                write: write@,
            },
            SaveFile::Done(Ok(path)) => SaveFileView::Done(Ok(path@)),
            SaveFile::Done(Err(error)) => SaveFileView::Done(Err(error@)),
        }
    }
}

impl SaveFileView {
    /// The command has ended with `outcome` and asks for nothing more.
    pub open spec fn finished(outcome: Result<Seq<char>, CommandErrorView>) -> (
        SaveFileView,
        Option<EffectView>,
    ) {
        (SaveFileView::Done(outcome), None)
    }

    /// What a save makes of a step of the dialog: a chosen path starts the
    /// write to that path; a cancelled dialog and a failed one end the
    /// command.
    pub open spec fn picking(
        content: Seq<char>,
        step: (FileSelectionView, Option<EffectView>),
    ) -> (SaveFileView, Option<EffectView>) {
        match step.0 {
            FileSelectionView::Delivered(Ok(Some(path))) => Self::writing(
                path,
                write_file_spec(path, content),
            ),
            FileSelectionView::Delivered(Ok(None)) => Self::finished(
                Err(CommandErrorView::NoFileSelected),
            ),
            FileSelectionView::Delivered(Err(error)) => Self::finished(
                Err(CommandErrorView::Dialog(error)),
            ),
            FileSelectionView::Shown => (
                SaveFileView::Picking { content, selection: step.0 },
                step.1,
            ),
        }
    }

    /// What a save makes of a step of the write to `path`: a write that
    /// succeeded ends the command with the path; an error of the write ends
    /// it too.
    pub open spec fn writing(path: Seq<char>, step: (WriteFileView, Option<EffectView>)) -> (
        SaveFileView,
        Option<EffectView>,
    ) {
        match step.0 {
            WriteFileView::Done(Ok(())) => Self::finished(Ok(path)),
            WriteFileView::Done(Err(error)) => Self::finished(Err(CommandErrorView::File(error))),
            _ => (SaveFileView::Writing { path, write: step.0 }, step.1),
        }
    }
}

impl Machine for SaveFileView {
    /// A directory that does not exist ends "save" before anything is
    /// written; one that exists starts the write. The dialog of "save as"
    /// and the write take the replies that are theirs.
    open spec fn resume(self, reply: ReplyView) -> (SaveFileView, Option<EffectView>) {
        match self {
            SaveFileView::AwaitParent { path, content, parent } => match reply {
                ReplyView::Exists(true) => Self::writing(
                    path,
                    write_file_in_spec(path, content, Some(parent)),
                ),
                ReplyView::Exists(false) => Self::finished(
                    Err(CommandErrorView::MissingParent { parent }),
                ),
                _ => Self::finished(Err(CommandErrorView::UnexpectedReply)),
            },
            SaveFileView::Picking { content, selection } => Self::picking(
                content,
                selection.resume(reply),
            ),
            SaveFileView::Writing { path, write } => Self::writing(path, write.resume(reply)),
            SaveFileView::Done(_) => (self, None),
        }
    }

    open spec fn ended(self) -> bool {
        self is Done
    }

    open spec fn remaining(self) -> nat {
        match self {
            SaveFileView::AwaitParent { .. } => 7,
            SaveFileView::Picking { .. } => 7,
            SaveFileView::Writing { write, .. } => write.remaining() + 1,
            SaveFileView::Done(_) => 0,
        }
    }

    open spec fn refused(self) -> bool {
        self matches SaveFileView::Done(Err(error)) && error.is_unexpected()
    }

    proof fn lemma_resume(self, reply: ReplyView) {
        match self {
            SaveFileView::Picking { content, selection } => selection.lemma_resume(reply),
            SaveFileView::Writing { path, write } => write.lemma_resume(reply),
            _ => {},
        }
    }

    proof fn lemma_takes_answers(self, reply: ReplyView, answer: ReplyView) {
    }
}

/// How "save" starts, given the trimmed path and the parent that it has,
/// if any: where the parent names a directory, by asking whether it exists;
/// where it names none, by writing. A bare file name is saved in the
/// current directory, and nothing is asked about the empty path.
pub open spec fn save_file_direct_in_spec(
    path: Seq<char>,
    content: Seq<char>,
    parent: Option<Seq<char>>,
) -> (SaveFileView, Option<EffectView>) {
    match named_directory(parent) {
        Some(parent) => (
            SaveFileView::AwaitParent { path, content, parent },
            Some(EffectView::Exists { path: parent }),
        ),
        None => SaveFileView::writing(path, write_file_in_spec(path, content, None)),
    }
}

/// How "save" starts: a path that is blank is refused at once, before
/// anything is asked of the file system; any other is trimmed and saved to.
pub open spec fn save_file_direct_spec(path: Seq<char>, content: Seq<char>) -> (
    SaveFileView,
    Option<EffectView>,
) {
    let target = trimmed(path);
    if target.len() == 0 {
        SaveFileView::finished(Err(CommandErrorView::EmptyPath))
    } else {
        save_file_direct_in_spec(target, content, path_parent(target))
    }
}

/// Saves `content` to `path`, in a directory that must exist.
pub fn save_file_direct(path: String, content: String) -> (next: (SaveFile, Option<Effect>))
    ensures
        (next.0@, next.1.deep_view()) == save_file_direct_spec(path@, content@),
{
    let target = trim(path.as_str());
    if target.is_empty() {
        (SaveFile::Done(Err(CommandError::EmptyPath)), None)
    } else {
        let directory = parent(target);
        save_file_direct_in(String::from_str(target), content, directory)
    }
}

/// Saves `content` to the trimmed path `path`, whose parent is `parent`.
pub fn save_file_direct_in(path: String, content: String, parent: Option<String>) -> (next: (
    SaveFile,
    Option<Effect>,
))
    ensures
        (next.0@, next.1.deep_view()) == save_file_direct_in_spec(
            path@,
            content@,
            parent.deep_view(),
        ),
{
    match directory_named_by(parent) {
        Some(parent) => {
            let effect = Effect::Exists { path: parent.clone() };
            (SaveFile::AwaitParent { path, content, parent }, Some(effect))
        },
        None => {
            let (write, effect) = write_file_in(path.clone(), content, None);
            SaveFile::writing(path, write, effect)
        },
    }
}

/// The file name that the dialog of "save as" starts with: the final
/// component of the trimmed path, and none where the path is absent or blank.
pub open spec fn default_filename_spec(default_path: Option<Seq<char>>) -> Option<Seq<char>> {
    match default_path {
        Some(path) => if trimmed(path).len() == 0 {
            None
        } else {
            path_file_name(trimmed(path))
        },
        None => None,
    }
}

/// How "save as" starts, given the file name that the dialog starts with:
/// by showing the dialog that picks where to save.
pub open spec fn save_file_as_named_spec(
    content: Seq<char>,
    default_filename: Option<Seq<char>>,
    config: DialogConfigView,
) -> (SaveFileView, Option<EffectView>) {
    let shown = show_save_dialog_spec(config, default_filename);
    (SaveFileView::Picking { content, selection: shown.0 }, shown.1)
}

/// How "save as" starts.
pub open spec fn save_file_as_spec(
    content: Seq<char>,
    default_path: Option<Seq<char>>,
    config: DialogConfigView,
) -> (SaveFileView, Option<EffectView>) {
    save_file_as_named_spec(content, default_filename_spec(default_path), config)
}

/// Lets the user pick where to save, and saves `content` there.
pub fn save_file_as(content: String, default_path: Option<String>, config: DialogConfig) -> (next:
    (SaveFile, Option<Effect>))
    ensures
        (next.0@, next.1.deep_view()) == save_file_as_spec(
            content@,
            default_path.deep_view(),
            config@,
        ),
{
    let default_filename = match &default_path {
        Some(path) => {
            let target = trim(path.as_str());
            if target.is_empty() {
                None
            } else {
                file_name(target)
            }
        },
        None => None,
    };
    save_file_as_named(content, default_filename, config)
}

/// Lets the user pick where to save, in a dialog that starts with
/// `default_filename`, and saves `content` there.
pub fn save_file_as_named(
    content: String,
    default_filename: Option<String>,
    config: DialogConfig,
) -> (next: (SaveFile, Option<Effect>))
    ensures
        (next.0@, next.1.deep_view()) == save_file_as_named_spec(
            content@,
            default_filename.deep_view(),
            config@,
        ),
{
    let (selection, effect) = match &default_filename {
        Some(name) => show_save_dialog(config, Some(name.as_str())),
        None => show_save_dialog(config, None),
    };
    (SaveFile::Picking { content, selection }, effect)
}

impl SaveFile {
    /// Takes the shell's reply to the pending effect and says what comes next.
    pub fn resume(self, reply: Reply) -> (next: (SaveFile, Option<Effect>))
        ensures
            (next.0@, next.1.deep_view()) == self@.resume(reply@),
    {
        match self {
            SaveFile::AwaitParent { path, content, parent } => match reply {
                Reply::Exists(true) => {
                    let (write, effect) = write_file_in(path.clone(), content, Some(parent));
                    Self::writing(path, write, effect)
                },
                Reply::Exists(false) => (
                    SaveFile::Done(Err(CommandError::MissingParent { parent })),
                    None,
                ),
                _ => (SaveFile::Done(Err(CommandError::UnexpectedReply)), None),
            },
            SaveFile::Picking { content, selection } => {
                let (selection, effect) = selection.resume(reply);
                match selection {
                    FileSelection::Delivered(Ok(Some(path))) => {
                        let (write, effect) = write_file(path.clone(), content);
                        Self::writing(path, write, effect)
                    },
                    FileSelection::Delivered(Ok(None)) => (
                        SaveFile::Done(Err(CommandError::NoFileSelected)),
                        None,
                    ),
                    FileSelection::Delivered(Err(error)) => (
                        SaveFile::Done(Err(CommandError::Dialog(error))),
                        None,
                    ),
                    FileSelection::Shown => (SaveFile::Picking { content, selection }, effect),
                }
            },
            SaveFile::Writing { path, write } => {
                let (write, effect) = write.resume(reply);
                Self::writing(path, write, effect)
            },
            SaveFile::Done(outcome) => (SaveFile::Done(outcome), None),
        }
    }

    fn writing(path: String, write: WriteFile, effect: Option<Effect>) -> (next: (
        SaveFile,
        Option<Effect>,
    ))
        ensures
            (next.0@, next.1.deep_view()) == SaveFileView::writing(
                path@,
                (write@, effect.deep_view()),
            ),
    {
        match write {
            WriteFile::Done(Ok(())) => (SaveFile::Done(Ok(path)), None),
            WriteFile::Done(Err(error)) => (SaveFile::Done(Err(CommandError::File(error))), None),
            _ => (SaveFile::Writing { path, write }, effect),
        }
    }
}

/// The command "rename" in progress, or how it ended.
#[derive(Debug, PartialEq, Eq)]
pub enum RenameCommand {
    /// The shell was asked whether something exists under the new name.
    AwaitDestination { old_path: String, new_path: String },
    /// The file is being moved.
    Renaming { new_path: String, rename: RenameFile },
    /// The command ended, with the file's new path or an error.
    Done(Result<String, CommandError>),
}

/// The mathematical value of a [`RenameCommand`].
pub enum RenameCommandView {
    AwaitDestination { old_path: Seq<char>, new_path: Seq<char> },
    Renaming { new_path: Seq<char>, rename: RenameFileView },
    Done(Result<Seq<char>, CommandErrorView>),
}

impl View for RenameCommand {
    type V = RenameCommandView;

    open spec fn view(&self) -> RenameCommandView {
        match self {
            RenameCommand::AwaitDestination { old_path, new_path } => {
                RenameCommandView::AwaitDestination { old_path: old_path@, new_path: new_path@ }
            },
            RenameCommand::Renaming { new_path, rename } => RenameCommandView::Renaming {
                new_path: new_path@,
                rename: rename@,
            },
            RenameCommand::Done(Ok(path)) => RenameCommandView::Done(Ok(path@)),
            RenameCommand::Done(Err(error)) => RenameCommandView::Done(Err(error@)),
        }
    }
}

impl RenameCommandView {
    /// The command has ended with `outcome` and asks for nothing more.
    pub open spec fn finished(outcome: Result<Seq<char>, CommandErrorView>) -> (
        RenameCommandView,
        Option<EffectView>,
    ) {
        (RenameCommandView::Done(outcome), None)
    }

    /// What "rename" makes of a step of the move to `new_path`: a move that
    /// succeeded ends the command with the new path; an error of the move
    /// ends it too.
    pub open spec fn renaming(new_path: Seq<char>, step: (RenameFileView, Option<EffectView>)) -> (
        RenameCommandView,
        Option<EffectView>,
    ) {
        match step.0 {
            RenameFileView::Done(Ok(())) => Self::finished(Ok(new_path)),
            RenameFileView::Done(Err(error)) => Self::finished(
                Err(CommandErrorView::File(error)),
            ),
            _ => (RenameCommandView::Renaming { new_path, rename: step.0 }, step.1),
        }
    }
}

impl Machine for RenameCommandView {
    /// A new name that is taken ends the command before anything is moved;
    /// one that is free starts the move.
    open spec fn resume(self, reply: ReplyView) -> (RenameCommandView, Option<EffectView>) {
        match self {
            RenameCommandView::AwaitDestination { old_path, new_path } => match reply {
                ReplyView::Exists(true) => Self::finished(
                    Err(CommandErrorView::DestinationExists),
                ),
                ReplyView::Exists(false) => Self::renaming(
                    new_path,
                    crate::file_ops::rename_file_spec(old_path, new_path),
                ),
                _ => Self::finished(Err(CommandErrorView::UnexpectedReply)),
            },
            RenameCommandView::Renaming { new_path, rename } => Self::renaming(
                new_path,
                rename.resume(reply),
            ),
            RenameCommandView::Done(_) => (self, None),
        }
    }

    open spec fn ended(self) -> bool {
        self is Done
    }

    open spec fn remaining(self) -> nat {
        match self {
            RenameCommandView::AwaitDestination { .. } => 3,
            RenameCommandView::Renaming { rename, .. } => rename.remaining() + 1,
            RenameCommandView::Done(_) => 0,
        }
    }

    open spec fn refused(self) -> bool {
        self matches RenameCommandView::Done(Err(error)) && error.is_unexpected()
    }

    proof fn lemma_resume(self, reply: ReplyView) {
        match self {
            RenameCommandView::Renaming { new_path, rename } => rename.lemma_resume(reply),
            _ => {},
        }
    }

    proof fn lemma_takes_answers(self, reply: ReplyView, answer: ReplyView) {
    }
}

/// Whether `name` is one plain file name: the final component that
/// `std::path` finds in it is the whole of it. A name with a directory
/// part, an absolute one, the empty one, `.` and `..` are not.
pub open spec fn is_plain_file_name(name: Seq<char>) -> bool {
    path_file_name(name) == Some(name)
}

/// How "rename" starts, given the directory of the old path, the new path
/// and the parent that the new path has: where that parent is the
/// directory of the old path, by asking whether something exists at the new
/// path; where it is not, the new name is refused.
pub open spec fn rename_file_to_spec(
    old_path: Seq<char>,
    directory: Seq<char>,
    new_path: Seq<char>,
    new_parent: Option<Seq<char>>,
) -> (RenameCommandView, Option<EffectView>) {
    if new_parent == Some(directory) {
        (
            RenameCommandView::AwaitDestination { old_path, new_path },
            Some(EffectView::Exists { path: new_path }),
        )
    } else {
        RenameCommandView::finished(Err(CommandErrorView::InvalidFileName))
    }
}

/// How "rename" starts, given the parent that the old path has, if any:
/// without a parent it ends at once, and so it does where the new name is
/// not one plain file name; else the new path is the new name joined to
/// the parent, and it has to lie in that same directory.
pub open spec fn rename_file_in_spec(
    old_path: Seq<char>,
    new_filename: Seq<char>,
    parent: Option<Seq<char>>,
) -> (RenameCommandView, Option<EffectView>) {
    match parent {
        Some(directory) => if is_plain_file_name(new_filename) {
            let new_path = path_join(directory, new_filename);
            rename_file_to_spec(old_path, directory, new_path, path_parent(new_path))
        } else {
            RenameCommandView::finished(Err(CommandErrorView::InvalidFileName))
        },
        None => RenameCommandView::finished(Err(CommandErrorView::NoParent)),
    }
}

/// How "rename" starts.
pub open spec fn rename_file_spec(old_path: Seq<char>, new_filename: Seq<char>) -> (
    RenameCommandView,
    Option<EffectView>,
) {
    rename_file_in_spec(old_path, new_filename, path_parent(old_path))
}

/// Gives the file at `old_path` the name `new_filename`, in the directory
/// that it is in.
pub fn rename_file(old_path: String, new_filename: String) -> (next: (
    RenameCommand,
    Option<Effect>,
))
    ensures
        (next.0@, next.1.deep_view()) == rename_file_spec(old_path@, new_filename@),
{
    let directory = parent(old_path.as_str());
    rename_file_in(old_path, new_filename, directory)
}

/// Gives the file at `old_path`, whose parent is `parent`, the name
/// `new_filename`.
pub fn rename_file_in(old_path: String, new_filename: String, parent: Option<String>) -> (next: (
    RenameCommand,
    Option<Effect>,
))
    ensures
        (next.0@, next.1.deep_view()) == rename_file_in_spec(
            old_path@,
            new_filename@,
            parent.deep_view(),
        ),
{
    match parent {
        Some(directory) => {
            let plain = match file_name(new_filename.as_str()) {
                Some(found) => found == new_filename,
                None => false,
            };
            if plain {
                let new_path = join(directory.as_str(), new_filename.as_str());
                let new_parent = crate::path::parent(new_path.as_str());
                rename_file_to(old_path, directory, new_path, new_parent)
            } else {
                (RenameCommand::Done(Err(CommandError::InvalidFileName)), None)
            }
        },
        None => (RenameCommand::Done(Err(CommandError::NoParent)), None),
    }
}

/// Moves the file at `old_path`, which lies in `directory`, to `new_path`,
/// whose parent is `new_parent`, unless that takes the file out of its
/// directory or something exists at the new path.
pub fn rename_file_to(
    old_path: String,
    directory: String,
    new_path: String,
    new_parent: Option<String>,
) -> (next: (RenameCommand, Option<Effect>))
    ensures
        (next.0@, next.1.deep_view()) == rename_file_to_spec(
            old_path@,
            directory@,
            new_path@,
            new_parent.deep_view(),
        ),
{
    let stays = match new_parent {
        Some(found) => found == directory,
        None => false,
    };
    if stays {
        let effect = Effect::Exists { path: new_path.clone() };
        (RenameCommand::AwaitDestination { old_path, new_path }, Some(effect))
    } else {
        (RenameCommand::Done(Err(CommandError::InvalidFileName)), None)
    }
}

impl RenameCommand {
    /// Takes the shell's reply to the pending effect and says what comes next.
    pub fn resume(self, reply: Reply) -> (next: (RenameCommand, Option<Effect>))
        ensures
            (next.0@, next.1.deep_view()) == self@.resume(reply@),
    {
        match self {
            RenameCommand::AwaitDestination { old_path, new_path } => match reply {
                Reply::Exists(true) => (
                    RenameCommand::Done(Err(CommandError::DestinationExists)),
                    None,
                ),
                Reply::Exists(false) => {
                    let (rename, effect) = crate::file_ops::rename_file(
                        old_path,
                        new_path.clone(),
                    );
                    Self::renaming(new_path, rename, effect)
                },
                _ => (RenameCommand::Done(Err(CommandError::UnexpectedReply)), None),
            },
            RenameCommand::Renaming { new_path, rename } => {
                let (rename, effect) = rename.resume(reply);
                Self::renaming(new_path, rename, effect)
            },
            RenameCommand::Done(outcome) => (RenameCommand::Done(outcome), None),
        }
    }

    fn renaming(new_path: String, rename: RenameFile, effect: Option<Effect>) -> (next: (
        RenameCommand,
        Option<Effect>,
    ))
        ensures
            (next.0@, next.1.deep_view()) == RenameCommandView::renaming(
                new_path@,
                (rename@, effect.deep_view()),
            ),
    {
        match rename {
            RenameFile::Done(Ok(())) => (RenameCommand::Done(Ok(new_path)), None),
            RenameFile::Done(Err(error)) => (
                RenameCommand::Done(Err(CommandError::File(error))),
                None,
            ),
            _ => (RenameCommand::Renaming { new_path, rename }, effect),
        }
    }
}

/// How "confirm" starts: by showing the yes/no dialog.
pub open spec fn show_confirm_dialog_spec(message: Seq<char>, title: Seq<char>) -> (
    Confirmation,
    Option<EffectView>,
) {
    (Confirmation::Shown, Some(EffectView::ShowConfirmDialog { title, message }))
}

/// Asks the user a yes/no question.
pub fn show_confirm_dialog(message: String, title: String) -> (next: (
    Confirmation,
    Option<Effect>,
))
    ensures
        (next.0, next.1.deep_view()) == show_confirm_dialog_spec(message@, title@),
{
    (Confirmation::Shown, Some(Effect::ShowConfirmDialog { title, message }))
}

/// Renaming to a name that is taken fails, and the one thing ever asked of
/// the file system is whether the destination exists: no move is asked for,
/// so neither file is touched. (A rename that is refused at once, for the
/// want of a parent directory or for a new name that is not plain, asks for
/// nothing at all.)
pub proof fn rename_onto_existing_file_touches_nothing(
    old_path: Seq<char>,
    new_filename: Seq<char>,
    later: Seq<ReplyView>,
)
    ensures
        ({
            let start = rename_file_spec(old_path, new_filename);
            let end = course(start, seq![ReplyView::Exists(true)] + later);
            match start.1 {
                Some(asked) => {
                    &&& asked is Exists
                    &&& end == (
                        RenameCommandView::Done(Err(CommandErrorView::DestinationExists)),
                        seq![asked],
                    )
                },
                None => end == (start.0, Seq::<EffectView>::empty()),
            }
        }),
{
    let start = rename_file_spec(old_path, new_filename);
    lemma_run_step(start.0, ReplyView::Exists(true), later);
    if start.1 is Some {
        lemma_run_ended(RenameCommandView::Done(Err(CommandErrorView::DestinationExists)), later);
    } else {
        lemma_run_ended(start.0, seq![ReplyView::Exists(true)] + later);
    }
}

/// Renaming to a plain name that is free asks for the move from the old
/// path to the new name in the directory of the old path, and a move that
/// succeeds ends the command with the new path.
pub proof fn rename_moves_within_the_directory(
    old_path: Seq<char>,
    new_filename: Seq<char>,
    later: Seq<ReplyView>,
)
    ensures
        ({
            let new_path = path_join(path_parent(old_path)->0, new_filename);
            path_parent(old_path) is Some && is_plain_file_name(new_filename) && path_parent(
                new_path,
            ) == path_parent(old_path) ==> course(
                rename_file_spec(old_path, new_filename),
                seq![ReplyView::Exists(false), ReplyView::Done] + later,
            ) == (
                RenameCommandView::Done(Ok(new_path)),
                seq![
                    EffectView::Exists { path: new_path },
                    EffectView::Rename { from: old_path, to: new_path },
                ],
            )
        }),
{
    let new_path = path_join(path_parent(old_path)->0, new_filename);
    if path_parent(old_path) is Some && is_plain_file_name(new_filename) && path_parent(new_path)
        == path_parent(old_path) {
        let start = rename_file_spec(old_path, new_filename);
        let replies = seq![ReplyView::Exists(false), ReplyView::Done] + later;
        let moved = seq![ReplyView::Done] + later;
        assert(replies =~= seq![ReplyView::Exists(false)] + moved);
        lemma_run_step(start.0, ReplyView::Exists(false), moved);
        let moving = start.0.resume(ReplyView::Exists(false));
        lemma_run_step(moving.0, ReplyView::Done, later);
        lemma_run_ended(RenameCommandView::Done(Ok(new_path)), later);
    }
}

/// A new name that is not one plain file name is refused before anything
/// is asked of the file system.
pub proof fn rename_refuses_a_name_that_is_not_plain(
    old_path: Seq<char>,
    new_filename: Seq<char>,
    later: Seq<ReplyView>,
)
    ensures
        !is_plain_file_name(new_filename) ==> course(
            rename_file_spec(old_path, new_filename),
            later,
        ) == (
            RenameCommandView::Done(
                Err(
                    if path_parent(old_path) is Some {
                        CommandErrorView::InvalidFileName
                    } else {
                        CommandErrorView::NoParent
                    },
                ),
            ),
            Seq::<EffectView>::empty(),
        ),
{
    if !is_plain_file_name(new_filename) {
        lemma_run_ended(rename_file_spec(old_path, new_filename).0, later);
    }
}

/// Whether `effect` keeps to the directory of `old_path`: it asks whether
/// something exists at a path whose parent is that of `old_path`, or it
/// moves `old_path` to such a path.
pub open spec fn keeps_to_directory(old_path: Seq<char>, effect: EffectView) -> bool {
    match effect {
        EffectView::Exists { path } => path_parent(path) == path_parent(old_path),
        EffectView::Rename { from, to } => from == old_path && path_parent(to) == path_parent(
            old_path,
        ),
        _ => false,
    }
}

/// Whether a rename of `old_path` that stands at `state` has kept to the
/// directory of `old_path`.
pub open spec fn renames_in_place(old_path: Seq<char>, state: RenameCommandView) -> bool {
    match state {
        RenameCommandView::AwaitDestination { old_path: from, new_path } => from == old_path
            && path_parent(new_path) == path_parent(old_path),
        RenameCommandView::Renaming { new_path, .. } => path_parent(new_path) == path_parent(
            old_path,
        ),
        RenameCommandView::Done(Ok(new_path)) => path_parent(new_path) == path_parent(old_path),
        RenameCommandView::Done(Err(_)) => true,
    }
}

proof fn lemma_rename_stays(old_path: Seq<char>, state: RenameCommandView, replies: Seq<ReplyView>)
    requires
        renames_in_place(old_path, state),
    ensures
        renames_in_place(old_path, run(state, replies).0),
        forall|i: int|
            0 <= i < run(state, replies).1.len() ==> keeps_to_directory(
                old_path,
                #[trigger] run(state, replies).1[i],
            ),
    decreases replies.len(),
{
    if replies.len() > 0 {
        let next = state.resume(replies.first());
        lemma_rename_stays(old_path, next.0, replies.drop_first());
    }
}

/// A rename never leaves the directory of the old path: whatever the new
/// name and whatever the shell replies, every path that the command asks
/// about or moves the file to has the parent that the old path has, and so
/// has the path that it ends with.
pub proof fn rename_stays_in_the_directory(
    old_path: Seq<char>,
    new_filename: Seq<char>,
    replies: Seq<ReplyView>,
)
    ensures
        ({
            let end = course(rename_file_spec(old_path, new_filename), replies);
            &&& forall|i: int|
                0 <= i < end.1.len() ==> keeps_to_directory(old_path, #[trigger] end.1[i])
            &&& end.0 matches RenameCommandView::Done(Ok(new_path)) ==> path_parent(new_path)
                == path_parent(old_path)
        }),
{
    let start = rename_file_spec(old_path, new_filename);
    lemma_rename_stays(old_path, start.0, replies);
}

/// Saving to a path that is blank fails with the validation error and asks
/// nothing of the shell, the file system included, whatever comes later.
pub proof fn blank_path_is_refused_before_any_access(
    path: Seq<char>,
    content: Seq<char>,
    later: Seq<ReplyView>,
)
    requires
        is_blank(path),
    ensures
        course(save_file_direct_spec(path, content), later) == (
            SaveFileView::Done(Err(CommandErrorView::EmptyPath)),
            Seq::<EffectView>::empty(),
        ),
{
    lemma_trimmed_empty_iff_blank(path);
    lemma_run_ended(SaveFileView::Done(Err(CommandErrorView::EmptyPath)), later);
}

/// Saving into a directory that does not exist fails, and nothing is
/// created or written.
pub proof fn save_into_missing_directory_writes_nothing(
    path: Seq<char>,
    content: Seq<char>,
    parent: Seq<char>,
    later: Seq<ReplyView>,
)
    requires
        parent.len() > 0,
    ensures
        course(
            save_file_direct_in_spec(path, content, Some(parent)),
            seq![ReplyView::Exists(false)] + later,
        ) == (
            SaveFileView::Done(Err(CommandErrorView::MissingParent { parent })),
            seq![EffectView::Exists { path: parent }],
        ),
{
    let start = save_file_direct_in_spec(path, content, Some(parent));
    lemma_run_step(start.0, ReplyView::Exists(false), later);
    lemma_run_ended(SaveFileView::Done(Err(CommandErrorView::MissingParent { parent })), later);
}

/// A bare file name is saved in the current directory: its parent is the
/// empty text, nothing is asked about it, and a write on which every step
/// succeeds ends "save" with the name.
pub proof fn bare_file_name_is_saved(path: Seq<char>, content: Seq<char>, later: Seq<ReplyView>)
    ensures
        course(
            save_file_direct_in_spec(path, content, Some(Seq::empty())),
            seq![ReplyView::Done, ReplyView::Done, ReplyView::Done] + later,
        ) == (
            SaveFileView::Done(Ok(path)),
            seq![
                EffectView::Create { path },
                EffectView::Write { bytes: encode_utf8(content) },
                EffectView::Sync,
            ],
        ),
{
    let start = save_file_direct_in_spec(path, content, Some(Seq::empty()));
    let replies = seq![ReplyView::Done, ReplyView::Done, ReplyView::Done] + later;
    let synced = seq![ReplyView::Done] + later;
    let written = seq![ReplyView::Done] + synced;
    assert(replies =~= seq![ReplyView::Done] + written);
    lemma_run_step(start.0, ReplyView::Done, written);
    let writing = start.0.resume(ReplyView::Done);
    lemma_run_step(writing.0, ReplyView::Done, synced);
    let syncing = writing.0.resume(ReplyView::Done);
    lemma_run_step(syncing.0, ReplyView::Done, later);
    lemma_run_ended(SaveFileView::Done(Ok(path)), later);
}

/// A file dialog that the user cancels ends "open" and "save as" with the
/// error that no file was selected, and nothing is read or written.
pub proof fn cancelled_dialog_selects_no_file(
    config: DialogConfigView,
    content: Seq<char>,
    default_path: Option<Seq<char>>,
    later: Seq<ReplyView>,
)
    ensures
        course(open_file_spec(config), seq![ReplyView::Selection(None)] + later) == (
            OpenFileView::Done(Err(CommandErrorView::NoFileSelected)),
            seq![open_file_spec(config).1->0],
        ),
        course(
            save_file_as_spec(content, default_path, config),
            seq![ReplyView::Selection(None)] + later,
        ) == (
            SaveFileView::Done(Err(CommandErrorView::NoFileSelected)),
            seq![save_file_as_spec(content, default_path, config).1->0],
        ),
{
    let opening = open_file_spec(config);
    lemma_run_step(opening.0, ReplyView::Selection(None), later);
    lemma_run_ended(OpenFileView::Done(Err(CommandErrorView::NoFileSelected)), later);
    let saving = save_file_as_spec(content, default_path, config);
    lemma_run_step(saving.0, ReplyView::Selection(None), later);
    lemma_run_ended(SaveFileView::Done(Err(CommandErrorView::NoFileSelected)), later);
}

/// "Open" on a chosen file within the size limit that holds well-formed
/// text ends with that text and with the chosen path.
pub proof fn open_returns_text_and_path(
    config: DialogConfigView,
    path: Seq<char>,
    size: u64,
    bytes: Seq<u8>,
    later: Seq<ReplyView>,
)
    requires
        size <= MAX_FILE_SIZE,
        valid_utf8(bytes),
    ensures
        course(
            open_file_spec(config),
            seq![
                ReplyView::Selection(Some(path)),
                ReplyView::Size(size),
                ReplyView::Done,
                ReplyView::Content(bytes),
            ] + later,
        ).0 == OpenFileView::Done(Ok(OpenedFileView { content: decode_utf8(bytes), path })),
{
    let start = open_file_spec(config);
    let replies = seq![
        ReplyView::Selection(Some(path)),
        ReplyView::Size(size),
        ReplyView::Done,
        ReplyView::Content(bytes),
    ] + later;
    let after_open = seq![ReplyView::Content(bytes)] + later;
    let after_size = seq![ReplyView::Done] + after_open;
    let after_pick = seq![ReplyView::Size(size)] + after_size;
    assert(replies =~= seq![ReplyView::Selection(Some(path))] + after_pick);
    lemma_run_step(start.0, ReplyView::Selection(Some(path)), after_pick);
    let sizing = start.0.resume(ReplyView::Selection(Some(path)));
    lemma_run_step(sizing.0, ReplyView::Size(size), after_size);
    let opening = sizing.0.resume(ReplyView::Size(size));
    lemma_run_step(opening.0, ReplyView::Done, after_open);
    let reading = opening.0.resume(ReplyView::Done);
    lemma_run_step(reading.0, ReplyView::Content(bytes), later);
    lemma_run_ended(reading.0.resume(ReplyView::Content(bytes)).0, later);
}

/// "Open" ends after five replies at most; and where each reply answers
/// the effect that is pending, it does not end on a reply that it could not
/// take.
pub proof fn open_ends(config: DialogConfigView, replies: Seq<ReplyView>)
    ensures
        replies.len() >= 5 ==> course(open_file_spec(config), replies).0 is Done,
        course(open_file_spec(config), replies).1.len() <= 5,
        faithful(open_file_spec(config), replies) ==> !course(
            open_file_spec(config),
            replies,
        ).0.refused(),
{
    let start = open_file_spec(config);
    every_operation_ends(start, replies);
    if faithful(start, replies) {
        faithful_shell_is_never_refused(start, replies);
    }
}

/// "Save" and "save as" end after seven replies at most; and where each
/// reply answers the effect that is pending, they do not end on a reply
/// that they could not take.
pub proof fn save_ends(
    path: Seq<char>,
    content: Seq<char>,
    default_path: Option<Seq<char>>,
    config: DialogConfigView,
    replies: Seq<ReplyView>,
)
    ensures
        replies.len() >= 7 ==> course(save_file_direct_spec(path, content), replies).0 is Done,
        course(save_file_direct_spec(path, content), replies).1.len() <= 7,
        faithful(save_file_direct_spec(path, content), replies) ==> !course(
            save_file_direct_spec(path, content),
            replies,
        ).0.refused(),
        replies.len() >= 7 ==> course(
            save_file_as_spec(content, default_path, config),
            replies,
        ).0 is Done,
        course(save_file_as_spec(content, default_path, config), replies).1.len() <= 7,
        faithful(save_file_as_spec(content, default_path, config), replies) ==> !course(
            save_file_as_spec(content, default_path, config),
            replies,
        ).0.refused(),
{
    let direct = save_file_direct_spec(path, content);
    every_operation_ends(direct, replies);
    if faithful(direct, replies) {
        faithful_shell_is_never_refused(direct, replies);
    }
    let picked = save_file_as_spec(content, default_path, config);
    every_operation_ends(picked, replies);
    if faithful(picked, replies) {
        faithful_shell_is_never_refused(picked, replies);
    }
}

/// "Rename" ends after three replies at most; and where each reply answers
/// the effect that is pending, it does not end on a reply that it could not
/// take.
pub proof fn rename_command_ends(
    old_path: Seq<char>,
    new_filename: Seq<char>,
    replies: Seq<ReplyView>,
)
    ensures
        replies.len() >= 3 ==> course(rename_file_spec(old_path, new_filename), replies).0 is Done,
        course(rename_file_spec(old_path, new_filename), replies).1.len() <= 3,
        faithful(rename_file_spec(old_path, new_filename), replies) ==> !course(
            rename_file_spec(old_path, new_filename),
            replies,
        ).0.refused(),
{
    let start = rename_file_spec(old_path, new_filename);
    every_operation_ends(start, replies);
    if faithful(start, replies) {
        faithful_shell_is_never_refused(start, replies);
    }
}

/// "Confirm" shows its dialog once and delivers the first reply: the
/// answer, yes or no, or the word that the channel closed.
pub proof fn confirm_dialog_delivers_once(
    message: Seq<char>,
    title: Seq<char>,
    reply: ReplyView,
    later: Seq<ReplyView>,
)
    ensures
        course(show_confirm_dialog_spec(message, title), seq![reply] + later) == (
            Confirmation::Delivered(confirmation_outcome(reply)),
            seq![EffectView::ShowConfirmDialog { title, message }],
        ),
{
    lemma_run_step(Confirmation::Shown, reply, later);
    lemma_run_ended(Confirmation::Delivered(confirmation_outcome(reply)), later);
}

/// The answer "no" is a result and a closed channel is an error: "confirm"
/// ends with `Ok(false)` on the one and with the communication error on the
/// other.
pub proof fn answer_no_is_not_a_failure(
    message: Seq<char>,
    title: Seq<char>,
    later: Seq<ReplyView>,
)
    ensures
        course(show_confirm_dialog_spec(message, title), seq![ReplyView::Answer(false)] + later).0
            == Confirmation::Delivered(Ok(false)),
        course(show_confirm_dialog_spec(message, title), seq![ReplyView::Disconnected] + later).0
            == Confirmation::Delivered(Err(DialogError::Disconnected)),
{
    confirm_dialog_delivers_once(message, title, ReplyView::Answer(false), later);
    confirm_dialog_delivers_once(message, title, ReplyView::Disconnected, later);
}

} // verus!
