//! The file access layer: whole-file text reads and writes, with a size
//! guard before any read and a durability sync after every write.

use crate::path::{parent, path_parent};
use crate::protocol::{
    course, every_operation_ends, faithful, faithful_shell_is_never_refused, lemma_run_ended,
    lemma_run_step, run, Effect, EffectView, Machine, Reply, ReplyView,
};
use crate::text::from_utf8;
use vstd::prelude::*;
use vstd::string::*;
use vstd::utf8::*;

verus! {

/// The largest file that is read, in bytes: 100 MiB.
pub const MAX_FILE_SIZE: u64 = 100 * 1024 * 1024;

/// How many bytes the read buffer has beyond the file's reported size.
pub const READ_SLACK: u64 = 1024;

/// The file system call that an I/O error came from.
#[derive(Clone, Copy, Debug, PartialEq, Eq)]
pub enum IoStep {
    Metadata,
    Open,
    Read,
    CreateDir,
    Create,
    Write,
    Sync,
    Rename,
}

impl IoStep {
    /// How the message of an error at this step begins.
    pub open spec fn prefix(self) -> Seq<char> {
        match self {
            IoStep::Metadata => "Error al leer los metadatos del archivo: "@,
            IoStep::Open => "Error al abrir el archivo: "@,
            IoStep::Read => "Error al leer el archivo: "@,
            IoStep::CreateDir => "Error al crear el directorio: "@,
            IoStep::Create => "Error al crear el archivo: "@,
            IoStep::Write => "Error al escribir el archivo: "@,
            IoStep::Sync => "Error al sincronizar el archivo: "@,
            IoStep::Rename => "Error al renombrar el archivo: "@,
        }
    }

    fn prefix_str(self) -> (text: &'static str)
        ensures
            text@ == self.prefix(),
    {
        match self {
            IoStep::Metadata => "Error al leer los metadatos del archivo: ",
            IoStep::Open => "Error al abrir el archivo: ",
            IoStep::Read => "Error al leer el archivo: ",
            IoStep::CreateDir => "Error al crear el directorio: ",
            IoStep::Create => "Error al crear el archivo: ",
            IoStep::Write => "Error al escribir el archivo: ",
            IoStep::Sync => "Error al sincronizar el archivo: ",
            IoStep::Rename => "Error al renombrar el archivo: ",
        }
    }
}

/// Why a file operation failed.
#[derive(Debug, PartialEq, Eq)]
pub enum FileError {
    /// A file system call failed; `cause` is the system's description.
    Io { step: IoStep, cause: String },
    /// The file is larger than [`MAX_FILE_SIZE`].
    TooLarge,
    /// The file's content is not well-formed UTF-8.
    InvalidText,
    /// The shell answered with a reply that the pending effect cannot have.
    UnexpectedReply,
}

/// The mathematical value of a [`FileError`].
pub enum FileErrorView {
    Io { step: IoStep, cause: Seq<char> },
    TooLarge,
    InvalidText,
    UnexpectedReply,
}

impl View for FileError {
    type V = FileErrorView;

    open spec fn view(&self) -> FileErrorView {
        match self {
            FileError::Io { step, cause } => FileErrorView::Io { step: *step, cause: cause@ },
            FileError::TooLarge => FileErrorView::TooLarge,
            FileError::InvalidText => FileErrorView::InvalidText,
            FileError::UnexpectedReply => FileErrorView::UnexpectedReply,
        }
    }
}

impl FileErrorView {
    /// The text shown to the user for this error.
    pub open spec fn message(self) -> Seq<char> {
        match self {
            FileErrorView::Io { step, cause } => step.prefix() + cause,
            FileErrorView::TooLarge => "El archivo es demasiado grande (máximo 100MB)"@,
            FileErrorView::InvalidText => IoStep::Read.prefix()
                + "stream did not contain valid UTF-8"@,
            FileErrorView::UnexpectedReply => "Respuesta inesperada del sistema de archivos"@,
        }
    }
}

impl FileError {
    /// The text shown to the user for this error.
    pub fn message(&self) -> (text: String)
        ensures
            text@ == self@.message(),
    {
        match self {
            FileError::Io { step, cause } => {
                let mut text = String::from_str(step.prefix_str());
                text.append(cause.as_str());
                text
            },
            FileError::TooLarge => String::from_str(
                "El archivo es demasiado grande (máximo 100MB)",
            ),
            FileError::InvalidText => {
                let mut text = String::from_str(IoStep::Read.prefix_str());
                text.append("stream did not contain valid UTF-8");
                text
            },
            FileError::UnexpectedReply => String::from_str(
                "Respuesta inesperada del sistema de archivos",
            ),
        }
    }
}

/// A read in progress: what it waits for, or how it ended.
#[derive(Debug, PartialEq, Eq)]
pub enum ReadFile {
    /// The file's metadata was asked for.
    AwaitSize { path: String },
    /// The size was accepted and the file is being opened.
    AwaitOpen { capacity: usize },
    /// The file is open and its content is being read.
    AwaitContent,
    /// The read ended, with the file's text or with an error.
    Done(Result<String, FileError>),
}

/// The mathematical value of a [`ReadFile`].
pub enum ReadFileView {
    AwaitSize { path: Seq<char> },
    AwaitOpen { capacity: usize },
    AwaitContent,
    Done(Result<Seq<char>, FileErrorView>),
}

impl View for ReadFile {
    type V = ReadFileView;

    open spec fn view(&self) -> ReadFileView {
        match self {
            ReadFile::AwaitSize { path } => ReadFileView::AwaitSize { path: path@ },
            ReadFile::AwaitOpen { capacity } => ReadFileView::AwaitOpen { capacity: *capacity },
            ReadFile::AwaitContent => ReadFileView::AwaitContent,
            ReadFile::Done(Ok(text)) => ReadFileView::Done(Ok(text@)),
            ReadFile::Done(Err(error)) => ReadFileView::Done(Err(error@)),
        }
    }
}

/// How a read starts: by asking for the file's metadata.
pub open spec fn read_file_spec(path: Seq<char>) -> (ReadFileView, Option<EffectView>) {
    (ReadFileView::AwaitSize { path }, Some(EffectView::Metadata { path }))
}

impl ReadFileView {
    /// The read has ended with `outcome` and asks for nothing more.
    pub open spec fn finished(outcome: Result<Seq<char>, FileErrorView>) -> (
        ReadFileView,
        Option<EffectView>,
    ) {
        (ReadFileView::Done(outcome), None)
    }
}

impl Machine for ReadFileView {
    /// A size over the limit ends the read before the file is opened. An
    /// accepted size leads to opening the file, then to reading it into a
    /// buffer of the size plus [`READ_SLACK`], then to decoding what was
    /// read. A failure ends the read with the step that failed.
    open spec fn resume(self, reply: ReplyView) -> (ReadFileView, Option<EffectView>) {
        match self {
            ReadFileView::AwaitSize { path } => match reply {
                ReplyView::Size(size) => if size > MAX_FILE_SIZE {
                    Self::finished(Err(FileErrorView::TooLarge))
                } else {
                    (
                        ReadFileView::AwaitOpen { capacity: (size + READ_SLACK) as usize },
                        Some(EffectView::Open { path }),
                    )
                },
                ReplyView::Failed(cause) => Self::finished(
                    Err(FileErrorView::Io { step: IoStep::Metadata, cause }),
                ),
                _ => Self::finished(Err(FileErrorView::UnexpectedReply)),
            },
            ReadFileView::AwaitOpen { capacity } => match reply {
                ReplyView::Done => (
                    ReadFileView::AwaitContent,
                    Some(EffectView::Read { capacity }),
                ),
                ReplyView::Failed(cause) => Self::finished(
                    Err(FileErrorView::Io { step: IoStep::Open, cause }),
                ),
                _ => Self::finished(Err(FileErrorView::UnexpectedReply)),
            },
            ReadFileView::AwaitContent => match reply {
                ReplyView::Content(bytes) => if valid_utf8(bytes) {
                    Self::finished(Ok(decode_utf8(bytes)))
                } else {
                    Self::finished(Err(FileErrorView::InvalidText))
                },
                ReplyView::Failed(cause) => Self::finished(
                    Err(FileErrorView::Io { step: IoStep::Read, cause }),
                ),
                _ => Self::finished(Err(FileErrorView::UnexpectedReply)),
            },
            ReadFileView::Done(_) => (self, None),
        }
    }

    open spec fn ended(self) -> bool {
        self is Done
    }

    open spec fn remaining(self) -> nat {
        match self {
            ReadFileView::AwaitSize { .. } => 3,
            ReadFileView::AwaitOpen { .. } => 2,
            ReadFileView::AwaitContent => 1,
            ReadFileView::Done(_) => 0,
        }
    }

    open spec fn refused(self) -> bool {
        self == ReadFileView::Done(Err(FileErrorView::UnexpectedReply))
    }

    proof fn lemma_resume(self, reply: ReplyView) {
    }

    proof fn lemma_takes_answers(self, reply: ReplyView, answer: ReplyView) {
    }
}

/// Starts reading the text file at `path`.
pub fn read_file(path: String) -> (next: (ReadFile, Option<Effect>))
    ensures
        (next.0@, next.1.deep_view()) == read_file_spec(path@),
{
    let effect = Effect::Metadata { path: path.clone() };
    (ReadFile::AwaitSize { path }, Some(effect))
}

impl ReadFile {
    /// Takes the shell's reply to the pending effect and says what comes next.
    pub fn resume(self, reply: Reply) -> (next: (ReadFile, Option<Effect>))
        ensures
            (next.0@, next.1.deep_view()) == self@.resume(reply@),
    {
        match self {
            ReadFile::AwaitSize { path } => match reply {
                Reply::Size(size) => {
                    if size > MAX_FILE_SIZE {
                        (ReadFile::Done(Err(FileError::TooLarge)), None)
                    } else {
                        let capacity: usize = (size + READ_SLACK) as usize;
                        (ReadFile::AwaitOpen { capacity }, Some(Effect::Open { path }))
                    }
                },
                Reply::Failed(cause) => (
                    ReadFile::Done(Err(FileError::Io { step: IoStep::Metadata, cause })),
                    None,
                ),
                _ => (ReadFile::Done(Err(FileError::UnexpectedReply)), None),
            },
            ReadFile::AwaitOpen { capacity } => match reply {
                Reply::Done => (ReadFile::AwaitContent, Some(Effect::Read { capacity })),
                Reply::Failed(cause) => (
                    ReadFile::Done(Err(FileError::Io { step: IoStep::Open, cause })),
                    None,
                ),
                _ => (ReadFile::Done(Err(FileError::UnexpectedReply)), None),
            },
            ReadFile::AwaitContent => match reply {
                Reply::Content(bytes) => match from_utf8(bytes) {
                    Some(text) => (ReadFile::Done(Ok(text)), None),
                    None => (ReadFile::Done(Err(FileError::InvalidText)), None),
                },
                Reply::Failed(cause) => (
                    ReadFile::Done(Err(FileError::Io { step: IoStep::Read, cause })),
                    None,
                ),
                _ => (ReadFile::Done(Err(FileError::UnexpectedReply)), None),
            },
            ReadFile::Done(outcome) => (ReadFile::Done(outcome), None),
        }
    }
}

/// A write in progress: what it waits for, or how it ended.
#[derive(Debug, PartialEq, Eq)]
pub enum WriteFile {
    /// The shell was asked whether the parent directory exists.
    AwaitParent { path: String, content: String, parent: String },
    /// The missing parent directories are being created.
    AwaitDirs { path: String, content: String },
    /// The file is being created or truncated.
    AwaitCreate { content: String },
    /// The content is being written.
    AwaitWrite,
    /// The file is being flushed to stable storage.
    AwaitSync,
    /// The write ended.
    Done(Result<(), FileError>),
}

/// The mathematical value of a [`WriteFile`].
pub enum WriteFileView {
    AwaitParent { path: Seq<char>, content: Seq<char>, parent: Seq<char> },
    AwaitDirs { path: Seq<char>, content: Seq<char> },
    AwaitCreate { content: Seq<char> },
    AwaitWrite,
    AwaitSync,
    Done(Result<(), FileErrorView>),
}

impl View for WriteFile {
    type V = WriteFileView;

    open spec fn view(&self) -> WriteFileView {
        match self {
            WriteFile::AwaitParent { path, content, parent } => WriteFileView::AwaitParent {
                path: path@,
                content: content@,
                parent: parent@,
            },
            WriteFile::AwaitDirs { path, content } => WriteFileView::AwaitDirs {
                path: path@,
                content: content@,
            },
            WriteFile::AwaitCreate { content } => WriteFileView::AwaitCreate { content: content@ },
            WriteFile::AwaitWrite => WriteFileView::AwaitWrite,
            WriteFile::AwaitSync => WriteFileView::AwaitSync,
            WriteFile::Done(Ok(())) => WriteFileView::Done(Ok(())),
            WriteFile::Done(Err(error)) => WriteFileView::Done(Err(error@)),
        }
    }
}

/// The directory that has to be there before a file can be created in it,
/// given the parent that the file's path has, if any. A path without a
/// parent names no directory, and neither does one whose parent is the
/// empty text: that is a bare file name, and its directory is the current
/// one, which is there.
pub open spec fn named_directory(parent: Option<Seq<char>>) -> Option<Seq<char>> {
    match parent {
        Some(directory) => if directory.len() == 0 {
            None
        } else {
            Some(directory)
        },
        None => None,
    }
}

/// How a write starts, given the parent that the path has, if any: where
/// the parent names a directory, by asking whether it exists; where it
/// names none, by creating the file.
pub open spec fn write_file_in_spec(
    path: Seq<char>,
    content: Seq<char>,
    parent: Option<Seq<char>>,
) -> (WriteFileView, Option<EffectView>) {
    match named_directory(parent) {
        Some(parent) => (
            WriteFileView::AwaitParent { path, content, parent },
            Some(EffectView::Exists { path: parent }),
        ),
        None => (WriteFileView::AwaitCreate { content }, Some(EffectView::Create { path })),
    }
}

/// How a write starts.
pub open spec fn write_file_spec(path: Seq<char>, content: Seq<char>) -> (
    WriteFileView,
    Option<EffectView>,
) {
    write_file_in_spec(path, content, path_parent(path))
}

impl WriteFileView {
    /// The write has ended with `outcome` and asks for nothing more.
    pub open spec fn finished(outcome: Result<(), FileErrorView>) -> (
        WriteFileView,
        Option<EffectView>,
    ) {
        (WriteFileView::Done(outcome), None)
    }

    /// The write has failed at `step`.
    pub open spec fn failed(step: IoStep, cause: Seq<char>) -> (WriteFileView, Option<EffectView>) {
        Self::finished(Err(FileErrorView::Io { step, cause }))
    }
}

impl Machine for WriteFileView {
    /// A missing parent directory is created with all its ancestors. Then
    /// the file is created or truncated, the bytes of the content are
    /// written, and the file is synced; only a successful sync ends the
    /// write with success. A failure ends it with the step that failed.
    open spec fn resume(self, reply: ReplyView) -> (WriteFileView, Option<EffectView>) {
        match self {
            WriteFileView::AwaitParent { path, content, parent } => match reply {
                ReplyView::Exists(true) => (
                    WriteFileView::AwaitCreate { content },
                    Some(EffectView::Create { path }),
                ),
                ReplyView::Exists(false) => (
                    WriteFileView::AwaitDirs { path, content },
                    Some(EffectView::CreateDirAll { path: parent }),
                ),
                _ => Self::finished(Err(FileErrorView::UnexpectedReply)),
            },
            WriteFileView::AwaitDirs { path, content } => match reply {
                ReplyView::Done => (
                    WriteFileView::AwaitCreate { content },
                    Some(EffectView::Create { path }),
                ),
                ReplyView::Failed(cause) => Self::failed(IoStep::CreateDir, cause),
                _ => Self::finished(Err(FileErrorView::UnexpectedReply)),
            },
            WriteFileView::AwaitCreate { content } => match reply {
                ReplyView::Done => (
                    WriteFileView::AwaitWrite,
                    Some(EffectView::Write { bytes: encode_utf8(content) }),
                ),
                ReplyView::Failed(cause) => Self::failed(IoStep::Create, cause),
                _ => Self::finished(Err(FileErrorView::UnexpectedReply)),
            },
            WriteFileView::AwaitWrite => match reply {
                ReplyView::Done => (WriteFileView::AwaitSync, Some(EffectView::Sync)),
                ReplyView::Failed(cause) => Self::failed(IoStep::Write, cause),
                _ => Self::finished(Err(FileErrorView::UnexpectedReply)),
            },
            WriteFileView::AwaitSync => match reply {
                ReplyView::Done => Self::finished(Ok(())),
                ReplyView::Failed(cause) => Self::failed(IoStep::Sync, cause),
                _ => Self::finished(Err(FileErrorView::UnexpectedReply)),
            },
            WriteFileView::Done(_) => (self, None),
        }
    }

    open spec fn ended(self) -> bool {
        self is Done
    }

    open spec fn remaining(self) -> nat {
        match self {
            WriteFileView::AwaitParent { .. } => 5,
            WriteFileView::AwaitDirs { .. } => 4,
            WriteFileView::AwaitCreate { .. } => 3,
            WriteFileView::AwaitWrite => 2,
            WriteFileView::AwaitSync => 1,
            WriteFileView::Done(_) => 0,
        }
    }

    open spec fn refused(self) -> bool {
        self == WriteFileView::Done(Err(FileErrorView::UnexpectedReply))
    }

    proof fn lemma_resume(self, reply: ReplyView) {
    }

    proof fn lemma_takes_answers(self, reply: ReplyView, answer: ReplyView) {
    }
}

/// Starts writing `content` to the file at `path`.
pub fn write_file(path: String, content: String) -> (next: (WriteFile, Option<Effect>))
    ensures
        (next.0@, next.1.deep_view()) == write_file_spec(path@, content@),
{
    let parent = parent(path.as_str());
    write_file_in(path, content, parent)
}

/// The directory that `parent` names: `parent` itself, unless there is none
/// or it is empty.
pub fn directory_named_by(parent: Option<String>) -> (directory: Option<String>)
    ensures
        directory.deep_view() == named_directory(parent.deep_view()),
{
    match parent {
        Some(directory) => {
            if directory.as_str().is_empty() {
                None
            } else {
                Some(directory)
            }
        },
        None => None,
    }
}

/// Starts writing `content` to the file at `path`, whose parent is `parent`.
pub fn write_file_in(path: String, content: String, parent: Option<String>) -> (next: (
    WriteFile,
    Option<Effect>,
))
    ensures
        (next.0@, next.1.deep_view()) == write_file_in_spec(path@, content@, parent.deep_view()),
{
    match directory_named_by(parent) {
        Some(parent) => {
            let effect = Effect::Exists { path: parent.clone() };
            (WriteFile::AwaitParent { path, content, parent }, Some(effect))
        },
        None => (WriteFile::AwaitCreate { content }, Some(Effect::Create { path })),
    }
}

impl WriteFile {
    /// Takes the shell's reply to the pending effect and says what comes next.
    pub fn resume(self, reply: Reply) -> (next: (WriteFile, Option<Effect>))
        ensures
            (next.0@, next.1.deep_view()) == self@.resume(reply@),
    {
        match self {
            WriteFile::AwaitParent { path, content, parent } => match reply {
                Reply::Exists(true) => (
                    WriteFile::AwaitCreate { content },
                    Some(Effect::Create { path }),
                ),
                Reply::Exists(false) => (
                    WriteFile::AwaitDirs { path, content },
                    Some(Effect::CreateDirAll { path: parent }),
                ),
                _ => (WriteFile::Done(Err(FileError::UnexpectedReply)), None),
            },
            WriteFile::AwaitDirs { path, content } => match reply {
                Reply::Done => (WriteFile::AwaitCreate { content }, Some(Effect::Create { path })),
                Reply::Failed(cause) => Self::failed(IoStep::CreateDir, cause),
                _ => (WriteFile::Done(Err(FileError::UnexpectedReply)), None),
            },
            WriteFile::AwaitCreate { content } => match reply {
                Reply::Done => {
                    let bytes = content.as_str().as_bytes_vec();
                    (WriteFile::AwaitWrite, Some(Effect::Write { bytes }))
                },
                Reply::Failed(cause) => Self::failed(IoStep::Create, cause),
                _ => (WriteFile::Done(Err(FileError::UnexpectedReply)), None),
            },
            WriteFile::AwaitWrite => match reply {
                Reply::Done => (WriteFile::AwaitSync, Some(Effect::Sync)),
                Reply::Failed(cause) => Self::failed(IoStep::Write, cause),
                _ => (WriteFile::Done(Err(FileError::UnexpectedReply)), None),
            },
            WriteFile::AwaitSync => match reply {
                Reply::Done => (WriteFile::Done(Ok(())), None),
                Reply::Failed(cause) => Self::failed(IoStep::Sync, cause),
                _ => (WriteFile::Done(Err(FileError::UnexpectedReply)), None),
            },
            WriteFile::Done(outcome) => (WriteFile::Done(outcome), None),
        }
    }

    fn failed(step: IoStep, cause: String) -> (next: (WriteFile, Option<Effect>))
        ensures
            (next.0@, next.1.deep_view()) == WriteFileView::failed(step, cause@),
    {
        (WriteFile::Done(Err(FileError::Io { step, cause })), None)
    }
}

/// A rename in progress, or how it ended.
#[derive(Debug, PartialEq, Eq)]
pub enum RenameFile {
    /// The file is being moved.
    AwaitRename,
    /// The rename ended.
    Done(Result<(), FileError>),
}

/// The mathematical value of a [`RenameFile`].
pub enum RenameFileView {
    AwaitRename,
    Done(Result<(), FileErrorView>),
}

impl View for RenameFile {
    type V = RenameFileView;

    open spec fn view(&self) -> RenameFileView {
        match self {
            RenameFile::AwaitRename => RenameFileView::AwaitRename,
            RenameFile::Done(Ok(())) => RenameFileView::Done(Ok(())),
            RenameFile::Done(Err(error)) => RenameFileView::Done(Err(error@)),
        }
    }
}

/// How a rename starts: by asking for the move. Whether the destination
/// exists is not looked at here.
pub open spec fn rename_file_spec(old_path: Seq<char>, new_path: Seq<char>) -> (
    RenameFileView,
    Option<EffectView>,
) {
    (RenameFileView::AwaitRename, Some(EffectView::Rename { from: old_path, to: new_path }))
}

impl Machine for RenameFileView {
    /// The rename ends with success when the move succeeded, and with the
    /// system's description when it failed.
    open spec fn resume(self, reply: ReplyView) -> (RenameFileView, Option<EffectView>) {
        match self {
            RenameFileView::AwaitRename => match reply {
                ReplyView::Done => (RenameFileView::Done(Ok(())), None),
                ReplyView::Failed(cause) => (
                    RenameFileView::Done(Err(FileErrorView::Io { step: IoStep::Rename, cause })),
                    None,
                ),
                _ => (RenameFileView::Done(Err(FileErrorView::UnexpectedReply)), None),
            },
            RenameFileView::Done(_) => (self, None),
        }
    }

    open spec fn ended(self) -> bool {
        self is Done
    }

    open spec fn remaining(self) -> nat {
        match self {
            RenameFileView::AwaitRename => 1,
            RenameFileView::Done(_) => 0,
        }
    }

    open spec fn refused(self) -> bool {
        self == RenameFileView::Done(Err(FileErrorView::UnexpectedReply))
    }

    proof fn lemma_resume(self, reply: ReplyView) {
    }

    proof fn lemma_takes_answers(self, reply: ReplyView, answer: ReplyView) {
    }
}

/// Starts moving the file at `old_path` to `new_path`.
pub fn rename_file(old_path: String, new_path: String) -> (next: (RenameFile, Option<Effect>))
    ensures
        (next.0@, next.1.deep_view()) == rename_file_spec(old_path@, new_path@),
{
    (RenameFile::AwaitRename, Some(Effect::Rename { from: old_path, to: new_path }))
}

impl RenameFile {
    /// Takes the shell's reply to the pending effect and says what comes next.
    pub fn resume(self, reply: Reply) -> (next: (RenameFile, Option<Effect>))
        ensures
            (next.0@, next.1.deep_view()) == self@.resume(reply@),
    {
        match self {
            RenameFile::AwaitRename => match reply {
                Reply::Done => (RenameFile::Done(Ok(())), None),
                Reply::Failed(cause) => (
                    RenameFile::Done(Err(FileError::Io { step: IoStep::Rename, cause })),
                    None,
                ),
                _ => (RenameFile::Done(Err(FileError::UnexpectedReply)), None),
            },
            RenameFile::Done(outcome) => (RenameFile::Done(outcome), None),
        }
    }
}

/// A file whose reported size is over the limit is refused with the
/// size-limit error, whatever the shell says afterwards, and the metadata
/// query is the only effect the read ever asks for: the file is never
/// opened.
pub proof fn oversized_file_is_never_opened(path: Seq<char>, size: u64, later: Seq<ReplyView>)
    requires
        size > MAX_FILE_SIZE,
    ensures
        course(read_file_spec(path), seq![ReplyView::Size(size)] + later) == (
            ReadFileView::Done(Err(FileErrorView::TooLarge)),
            seq![EffectView::Metadata { path }],
        ),
{
    let start = read_file_spec(path);
    lemma_run_step(start.0, ReplyView::Size(size), later);
    lemma_run_ended(ReadFileView::Done(Err(FileErrorView::TooLarge)), later);
}

/// A file within the limit that holds well-formed text is read in three
/// steps (metadata, open, read into a buffer of the size plus the slack),
/// and the text returned encodes to exactly the bytes that were read.
pub proof fn read_returns_the_bytes_on_disk(
    path: Seq<char>,
    size: u64,
    bytes: Seq<u8>,
    later: Seq<ReplyView>,
)
    requires
        size <= MAX_FILE_SIZE,
        valid_utf8(bytes),
    ensures
        ({
            let end = course(
                read_file_spec(path),
                seq![ReplyView::Size(size), ReplyView::Done, ReplyView::Content(bytes)] + later,
            );
            &&& end.0 matches ReadFileView::Done(Ok(text))
            &&& encode_utf8(text) == bytes
            &&& end.1 == seq![
                EffectView::Metadata { path },
                EffectView::Open { path },
                EffectView::Read { capacity: (size + READ_SLACK) as usize },
            ]
            &&& (size + READ_SLACK) as usize == size + READ_SLACK
        }),
{
    let start = read_file_spec(path);
    let replies = seq![ReplyView::Size(size), ReplyView::Done, ReplyView::Content(bytes)] + later;
    let after_open = seq![ReplyView::Content(bytes)] + later;
    let after_size = seq![ReplyView::Done] + after_open;
    assert(replies =~= seq![ReplyView::Size(size)] + after_size);
    lemma_run_step(start.0, ReplyView::Size(size), after_size);
    let opening = start.0.resume(ReplyView::Size(size));
    lemma_run_step(opening.0, ReplyView::Done, after_open);
    let reading = opening.0.resume(ReplyView::Done);
    lemma_run_step(reading.0, ReplyView::Content(bytes), later);
    let done = reading.0.resume(ReplyView::Content(bytes));
    lemma_run_ended(done.0, later);
    decode_utf8_encode_utf8(bytes);
}

/// The replies of a shell on which every step of a write succeeds: the
/// directory that the parent names, if it names one, exists or not as
/// `parent_exists` says.
pub open spec fn write_success_replies(parent: Option<Seq<char>>, parent_exists: bool) -> Seq<
    ReplyView,
> {
    let written = seq![ReplyView::Done, ReplyView::Done, ReplyView::Done];
    match named_directory(parent) {
        None => written,
        Some(_) => if parent_exists {
            seq![ReplyView::Exists(true)] + written
        } else {
            seq![ReplyView::Exists(false), ReplyView::Done] + written
        },
    }
}

/// The effects of a write on which every step succeeds.
pub open spec fn write_success_effects(
    path: Seq<char>,
    content: Seq<char>,
    parent: Option<Seq<char>>,
    parent_exists: bool,
) -> Seq<EffectView> {
    let written = seq![
        EffectView::Create { path },
        EffectView::Write { bytes: encode_utf8(content) },
        EffectView::Sync,
    ];
    match named_directory(parent) {
        None => written,
        Some(parent) => if parent_exists {
            seq![EffectView::Exists { path: parent }] + written
        } else {
            seq![
                EffectView::Exists { path: parent },
                EffectView::CreateDirAll { path: parent },
            ] + written
        },
    }
}

/// A write on which every step succeeds ends with success, and on the way
/// it asks for exactly this: whether the directory that the parent names
/// exists, the creation of that directory with all its ancestors where it
/// does not, the creation of the file, the write of the content's bytes,
/// and the sync. A bare file name goes straight to the creation of the file.
pub proof fn write_creates_missing_parents_and_succeeds(
    path: Seq<char>,
    content: Seq<char>,
    parent: Option<Seq<char>>,
    parent_exists: bool,
    later: Seq<ReplyView>,
)
    ensures
        course(
            write_file_in_spec(path, content, parent),
            write_success_replies(parent, parent_exists) + later,
        ) == (
            WriteFileView::Done(Ok(())),
            write_success_effects(path, content, parent, parent_exists),
        ),
{
    let start = write_file_in_spec(path, content, parent);
    let replies = write_success_replies(parent, parent_exists) + later;
    let after_write = seq![ReplyView::Done] + later;
    let after_create = seq![ReplyView::Done] + after_write;
    let creating = seq![ReplyView::Done] + after_create;
    let ready = WriteFileView::AwaitCreate { content };
    lemma_run_step(ready, ReplyView::Done, after_create);
    lemma_run_step(WriteFileView::AwaitWrite, ReplyView::Done, after_write);
    lemma_run_step(WriteFileView::AwaitSync, ReplyView::Done, later);
    lemma_run_ended(WriteFileView::Done(Ok(())), later);
    match named_directory(parent) {
        None => {
            assert(replies =~= creating);
        },
        Some(_) => {
            if parent_exists {
                assert(replies =~= seq![ReplyView::Exists(true)] + creating);
                lemma_run_step(start.0, ReplyView::Exists(true), creating);
            } else {
                let making = seq![ReplyView::Done] + creating;
                assert(replies =~= seq![ReplyView::Exists(false)] + making);
                lemma_run_step(start.0, ReplyView::Exists(false), making);
                lemma_run_step(
                    WriteFileView::AwaitDirs { path, content },
                    ReplyView::Done,
                    creating,
                );
            }
        },
    }
}

/// Writing and then reading gives the text back. A write on which every
/// step succeeds hands the shell the bytes that encode `content`, and a read
/// of a file that holds those bytes ends with `content`. This holds of every
/// text whose encoding is within the size limit; a longer one is written but
/// refused when read.
pub proof fn write_then_read_round_trip(
    path: Seq<char>,
    content: Seq<char>,
    parent: Option<Seq<char>>,
    parent_exists: bool,
)
    requires
        encode_utf8(content).len() <= MAX_FILE_SIZE,
    ensures
        ({
            let bytes = encode_utf8(content);
            let written = course(
                write_file_in_spec(path, content, parent),
                write_success_replies(parent, parent_exists),
            );
            let read = course(
                read_file_spec(path),
                seq![
                    ReplyView::Size(bytes.len() as u64),
                    ReplyView::Done,
                    ReplyView::Content(bytes),
                ],
            );
            &&& written.0 == WriteFileView::Done(Ok(()))
            &&& written.1.contains(EffectView::Write { bytes })
            &&& read.0 == ReadFileView::Done(Ok(content))
        }),
{
    let bytes = encode_utf8(content);
    let none = Seq::<ReplyView>::empty();
    write_creates_missing_parents_and_succeeds(path, content, parent, parent_exists, none);
    let effects = write_success_effects(path, content, parent, parent_exists);
    assert(effects[effects.len() - 2] == EffectView::Write { bytes });

    let reads = seq![
        ReplyView::Size(bytes.len() as u64),
        ReplyView::Done,
        ReplyView::Content(bytes),
    ];
    encode_utf8_valid_utf8(content);
    read_returns_the_bytes_on_disk(path, bytes.len() as u64, bytes, none);
    let text = course(read_file_spec(path), reads).0->Done_0->Ok_0;
    encode_utf8_decode_utf8(text);
    encode_utf8_decode_utf8(content);
}

/// Whether a write that stands at `state`, having asked for `asked` so far,
/// has the sync as the last thing it asked for wherever it waits for the
/// sync or has ended with success.
pub open spec fn synced_before_success(state: WriteFileView, asked: Seq<EffectView>) -> bool {
    state == WriteFileView::AwaitSync || state == WriteFileView::Done(Ok(())) ==> asked.len() > 0
        && asked.last() == EffectView::Sync
}

proof fn lemma_sync_precedes_success(
    state: WriteFileView,
    asked: Seq<EffectView>,
    replies: Seq<ReplyView>,
)
    requires
        synced_before_success(state, asked),
    ensures
        synced_before_success(run(state, replies).0, asked + run(state, replies).1),
    decreases replies.len(),
{
    if replies.len() > 0 {
        let next = state.resume(replies.first());
        let rest = replies.drop_first();
        match next.1 {
            Some(effect) => lemma_sync_precedes_success(next.0, asked + seq![effect], rest),
            None => lemma_sync_precedes_success(next.0, asked, rest),
        }
    }
}

/// A write reports success only after the sync: whatever the shell
/// replies, a write that has ended with success has asked for the sync as
/// the last of its effects.
pub proof fn success_follows_sync(
    path: Seq<char>,
    content: Seq<char>,
    parent: Option<Seq<char>>,
    replies: Seq<ReplyView>,
)
    ensures
        ({
            let end = course(write_file_in_spec(path, content, parent), replies);
            end.0 == WriteFileView::Done(Ok(())) ==> end.1.len() > 0 && end.1.last()
                == EffectView::Sync
        }),
{
    let start = write_file_in_spec(path, content, parent);
    lemma_sync_precedes_success(start.0, seq![start.1->0], replies);
}

/// A read ends after three replies at most and asks for three effects at
/// most; and where each reply answers the effect that is pending, it does
/// not end on a reply that it could not take.
pub proof fn read_ends(path: Seq<char>, replies: Seq<ReplyView>)
    ensures
        replies.len() >= 3 ==> course(read_file_spec(path), replies).0 is Done,
        course(read_file_spec(path), replies).1.len() <= 3,
        faithful(read_file_spec(path), replies) ==> course(read_file_spec(path), replies).0
            != ReadFileView::Done(Err(FileErrorView::UnexpectedReply)),
{
    let start = read_file_spec(path);
    every_operation_ends(start, replies);
    if faithful(start, replies) {
        faithful_shell_is_never_refused(start, replies);
    }
}

/// A write ends after five replies at most and asks for five effects at
/// most; and where each reply answers the effect that is pending, it does
/// not end on a reply that it could not take.
pub proof fn write_ends(
    path: Seq<char>,
    content: Seq<char>,
    parent: Option<Seq<char>>,
    replies: Seq<ReplyView>,
)
    ensures
        replies.len() >= 5 ==> course(write_file_in_spec(path, content, parent), replies).0 is Done,
        course(write_file_in_spec(path, content, parent), replies).1.len() <= 5,
        faithful(write_file_in_spec(path, content, parent), replies) ==> course(
            write_file_in_spec(path, content, parent),
            replies,
        ).0 != WriteFileView::Done(Err(FileErrorView::UnexpectedReply)),
{
    let start = write_file_in_spec(path, content, parent);
    every_operation_ends(start, replies);
    if faithful(start, replies) {
        faithful_shell_is_never_refused(start, replies);
    }
}

/// A rename ends with the first reply and asks for one effect; and where
/// the reply answers that effect, it is taken.
pub proof fn rename_ends(old_path: Seq<char>, new_path: Seq<char>, replies: Seq<ReplyView>)
    ensures
        replies.len() >= 1 ==> course(rename_file_spec(old_path, new_path), replies).0 is Done,
        course(rename_file_spec(old_path, new_path), replies).1.len() <= 1,
        faithful(rename_file_spec(old_path, new_path), replies) ==> course(
            rename_file_spec(old_path, new_path),
            replies,
        ).0 != RenameFileView::Done(Err(FileErrorView::UnexpectedReply)),
{
    let start = rename_file_spec(old_path, new_path);
    every_operation_ends(start, replies);
    if faithful(start, replies) {
        faithful_shell_is_never_refused(start, replies);
    }
}

} // verus!
