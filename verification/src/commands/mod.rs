//! The command layer: the operations that the user interface invokes, each
//! built from the file access layer and the dialog bridge, and the one
//! error type that all of them end with.

pub mod file_commands;
pub mod shell_commands;
pub mod updater_commands;

use crate::dialog::DialogError;
use crate::file_ops::{FileError, FileErrorView};
use crate::path::{debug, path_debug};
use vstd::prelude::*;
use vstd::string::*;

verus! {

/// Why a command failed.
#[derive(Debug, PartialEq, Eq)]
pub enum CommandError {
    /// The path is empty once trimmed.
    EmptyPath,
    /// The directory that the file would be saved in does not exist.
    MissingParent { parent: String },
    /// The path to rename has no parent directory.
    NoParent,
    /// The new name is not one plain file name: it would take the file out
    /// of its directory.
    InvalidFileName,
    /// Something already exists under the new name.
    DestinationExists,
    /// The user closed the file dialog without choosing.
    NoFileSelected,
    /// The dialog gave no outcome.
    Dialog(DialogError),
    /// The file access layer failed.
    File(FileError),
    /// The address is empty once trimmed.
    EmptyUrl,
    /// The system could not open the address; the text is its description.
    Shell(String),
    /// The update service could not be asked; the text is its description.
    UpdateCheck(String),
    /// The update could not be downloaded or installed.
    UpdateInstall(String),
    /// There is no update to install.
    NoUpdate,
    /// The shell answered with a reply that the pending effect cannot have.
    UnexpectedReply,
}

/// The mathematical value of a [`CommandError`].
pub enum CommandErrorView {
    EmptyPath,
    MissingParent { parent: Seq<char> },
    NoParent,
    InvalidFileName,
    DestinationExists,
    NoFileSelected,
    Dialog(DialogError),
    File(FileErrorView),
    EmptyUrl,
    Shell(Seq<char>),
    UpdateCheck(Seq<char>),
    UpdateInstall(Seq<char>),
    NoUpdate,
    UnexpectedReply,
}

impl View for CommandError {
    type V = CommandErrorView;

    open spec fn view(&self) -> CommandErrorView {
        match self {
            CommandError::EmptyPath => CommandErrorView::EmptyPath,
            CommandError::MissingParent { parent } => CommandErrorView::MissingParent {
                parent: parent@,
            },
            CommandError::NoParent => CommandErrorView::NoParent,
            CommandError::InvalidFileName => CommandErrorView::InvalidFileName,
            CommandError::DestinationExists => CommandErrorView::DestinationExists,
            CommandError::NoFileSelected => CommandErrorView::NoFileSelected,
            CommandError::Dialog(error) => CommandErrorView::Dialog(*error),
            CommandError::File(error) => CommandErrorView::File(error@),
            CommandError::EmptyUrl => CommandErrorView::EmptyUrl,
            CommandError::Shell(cause) => CommandErrorView::Shell(cause@),
            CommandError::UpdateCheck(cause) => CommandErrorView::UpdateCheck(cause@),
            CommandError::UpdateInstall(cause) => CommandErrorView::UpdateInstall(cause@),
            CommandError::NoUpdate => CommandErrorView::NoUpdate,
            CommandError::UnexpectedReply => CommandErrorView::UnexpectedReply,
        }
    }
}

impl CommandErrorView {
    /// Whether the error is that of a reply that did not fit the pending
    /// effect, in this layer or in one below.
    pub open spec fn is_unexpected(self) -> bool {
        ||| self == CommandErrorView::UnexpectedReply
        ||| self == CommandErrorView::File(FileErrorView::UnexpectedReply)
        ||| self == CommandErrorView::Dialog(DialogError::UnexpectedReply)
    }

    /// The text shown to the user for this error. An error of a lower layer
    /// keeps the text that the layer gave it.
    pub open spec fn message(self) -> Seq<char> {
        match self {
            CommandErrorView::EmptyPath => "La ruta no puede estar vacía"@,
            CommandErrorView::MissingParent { parent } => "El directorio padre no existe: "@
                + path_debug(parent),
            CommandErrorView::NoParent => "No se pudo obtener el directorio padre"@,
            CommandErrorView::InvalidFileName => "El nombre de archivo no es válido"@,
            CommandErrorView::DestinationExists => "Ya existe un archivo con ese nombre"@,
            CommandErrorView::NoFileSelected => "No se seleccionó ningún archivo"@,
            CommandErrorView::Dialog(error) => error.message_spec(),
            CommandErrorView::File(error) => error.message(),
            CommandErrorView::EmptyUrl => "URL vacía"@,
            CommandErrorView::Shell(cause) => cause,
            CommandErrorView::UpdateCheck(cause) => "Error al verificar actualizaciones: "@
                + cause,
            CommandErrorView::UpdateInstall(cause) => "Error al descargar e instalar: "@ + cause,
            CommandErrorView::NoUpdate => "No hay actualización disponible"@,
            CommandErrorView::UnexpectedReply => "Respuesta inesperada"@,
        }
    }
}

impl CommandError {
    /// The text shown to the user for this error.
    pub fn message(&self) -> (text: String)
        ensures
            text@ == self@.message(),
    {
        match self {
            CommandError::EmptyPath => String::from_str("La ruta no puede estar vacía"),
            CommandError::MissingParent { parent } => {
                let shown = debug(parent.as_str());
                let mut text = String::from_str("El directorio padre no existe: ");
                text.append(shown.as_str());
                text
            },
            CommandError::NoParent => String::from_str("No se pudo obtener el directorio padre"),
            CommandError::InvalidFileName => String::from_str("El nombre de archivo no es válido"),
            CommandError::DestinationExists => String::from_str(
                "Ya existe un archivo con ese nombre",
            ),
            CommandError::NoFileSelected => String::from_str("No se seleccionó ningún archivo"),
            CommandError::Dialog(error) => error.message(),
            CommandError::File(error) => error.message(),
            CommandError::EmptyUrl => String::from_str("URL vacía"),
            CommandError::Shell(cause) => cause.clone(),
            CommandError::UpdateCheck(cause) => {
                let mut text = String::from_str("Error al verificar actualizaciones: ");
                text.append(cause.as_str());
                text
            },
            CommandError::UpdateInstall(cause) => {
                let mut text = String::from_str("Error al descargar e instalar: ");
                text.append(cause.as_str());
                text
            },
            CommandError::NoUpdate => String::from_str("No hay actualización disponible"),
            CommandError::UnexpectedReply => String::from_str("Respuesta inesperada"),
        }
    }
}

} // verus!
