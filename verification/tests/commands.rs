use fastext::commands::file_commands::{
    open_file, rename_file, rename_file_in, rename_file_to, save_file_as, save_file_as_named,
    save_file_direct, save_file_direct_in, show_confirm_dialog, OpenFile, OpenedFile,
    RenameCommand, SaveFile,
};
use fastext::commands::shell_commands::{open_url_in_browser, OpenUrl};
use fastext::commands::updater_commands::{
    check_update, install_update, CheckUpdate, InstallUpdate, UpdateReport,
};
use fastext::commands::CommandError;
use fastext::dialog::{
    Confirmation, DialogConfig, DialogError, DialogMode, FileDialog, FileFilter, FileSelection,
};
use fastext::file_ops::{FileError, IoStep, ReadFile, RenameFile, WriteFile, MAX_FILE_SIZE};
use fastext::protocol::{Effect, Reply, UpdateResponse};

fn text(s: &str) -> String {
    s.to_string()
}

fn config() -> DialogConfig {
    DialogConfig {
        text_filter: FileFilter { name: text("Texto"), extensions: vec![text("txt")] },
        all_files_label: text("Todos"),
    }
}

fn filters() -> Vec<FileFilter> {
    vec![
        FileFilter { name: text("Texto"), extensions: vec![text("txt")] },
        FileFilter { name: text("Todos"), extensions: vec![text("*")] },
    ]
}

fn suggested_name(effect: Option<Effect>) -> Option<String> {
    match effect {
        Some(Effect::ShowFileDialog { request }) => request.file_name,
        other => panic!("no dialog: {:?}", other),
    }
}

#[test]
fn open_file_without_a_selection_is_an_error() {
    let (state, effect) = open_file(config());
    assert_eq!(state, OpenFile::Picking { selection: FileSelection::Shown });
    assert_eq!(
        effect,
        Some(Effect::ShowFileDialog {
            request: FileDialog { mode: DialogMode::Open, filters: filters(), file_name: None },
        })
    );
    let (state, effect) = state.resume(Reply::Selection(None));
    assert_eq!(state, OpenFile::Done(Err(CommandError::NoFileSelected)));
    assert_eq!(effect, None);
    assert_eq!(CommandError::NoFileSelected.message(), "No se seleccionó ningún archivo");
}

#[test]
fn open_file_returns_the_content_and_the_path() {
    let (state, _) = open_file(config());
    let (state, effect) = state.resume(Reply::Selection(Some(text("/tmp/x.txt"))));
    assert_eq!(
        state,
        OpenFile::Reading {
            path: text("/tmp/x.txt"),
            read: ReadFile::AwaitSize { path: text("/tmp/x.txt") },
        }
    );
    assert_eq!(effect, Some(Effect::Metadata { path: text("/tmp/x.txt") }));
    let (state, effect) = state.resume(Reply::Size(5));
    assert_eq!(effect, Some(Effect::Open { path: text("/tmp/x.txt") }));
    let (state, effect) = state.resume(Reply::Done);
    assert_eq!(effect, Some(Effect::Read { capacity: 1029 }));
    let (state, effect) = state.resume(Reply::Content(b"hello".to_vec()));
    assert_eq!(
        state,
        OpenFile::Done(Ok(OpenedFile { content: text("hello"), path: text("/tmp/x.txt") }))
    );
    assert_eq!(effect, None);
}

#[test]
fn open_file_passes_on_the_errors_of_the_read() {
    let (state, _) = open_file(config());
    let (state, _) = state.resume(Reply::Selection(Some(text("/tmp/big.bin"))));
    let (state, effect) = state.resume(Reply::Size(MAX_FILE_SIZE + 1));
    assert_eq!(state, OpenFile::Done(Err(CommandError::File(FileError::TooLarge))));
    assert_eq!(effect, None);

    let (state, _) = open_file(config());
    let (state, _) = state.resume(Reply::Selection(Some(text("/tmp/gone.txt"))));
    let (state, _) = state.resume(Reply::Failed(text("not found")));
    let error = match state {
        OpenFile::Done(Err(error)) => error,
        other => panic!("not an error: {:?}", other),
    };
    assert_eq!(error.message(), "Error al leer los metadatos del archivo: not found");
}

#[test]
fn open_file_reports_a_dialog_that_never_answered() {
    let (state, _) = open_file(config());
    let (state, effect) = state.resume(Reply::Disconnected);
    assert_eq!(state, OpenFile::Done(Err(CommandError::Dialog(DialogError::Disconnected))));
    assert_eq!(effect, None);
}

#[test]
fn save_file_direct_refuses_a_blank_path_and_touches_nothing() {
    let (state, effect) = save_file_direct(text("   "), text("contenido"));
    assert_eq!(state, SaveFile::Done(Err(CommandError::EmptyPath)));
    assert_eq!(effect, None);
    assert_eq!(CommandError::EmptyPath.message(), "La ruta no puede estar vacía");

    let (state, effect) = save_file_direct(String::new(), text("contenido"));
    assert_eq!(state, SaveFile::Done(Err(CommandError::EmptyPath)));
    assert_eq!(effect, None);

    let (state, effect) = save_file_direct(text("\t\n"), text("contenido"));
    assert_eq!(state, SaveFile::Done(Err(CommandError::EmptyPath)));
    assert_eq!(effect, None);
}

#[test]
fn save_file_direct_trims_the_path_and_checks_the_parent() {
    let (state, effect) = save_file_direct(text("  /tmp/notas/hoy.txt \n"), text("hola"));
    assert_eq!(
        state,
        SaveFile::AwaitParent {
            path: text("/tmp/notas/hoy.txt"),
            content: text("hola"),
            parent: text("/tmp/notas"),
        }
    );
    assert_eq!(effect, Some(Effect::Exists { path: text("/tmp/notas") }));
}

#[test]
fn save_file_direct_refuses_a_missing_parent() {
    let (state, _) = save_file_direct(text("/tmp/no hay/hoy.txt"), text("hola"));
    let (state, effect) = state.resume(Reply::Exists(false));
    assert_eq!(
        state,
        SaveFile::Done(Err(CommandError::MissingParent { parent: text("/tmp/no hay") }))
    );
    assert_eq!(effect, None);
    assert_eq!(
        CommandError::MissingParent { parent: text("/tmp/no hay") }.message(),
        "El directorio padre no existe: \"/tmp/no hay\""
    );
}

#[test]
fn save_file_direct_writes_and_returns_the_trimmed_path() {
    let (state, _) = save_file_direct(text(" /tmp/notas/hoy.txt "), text("hola"));
    let (state, effect) = state.resume(Reply::Exists(true));
    assert_eq!(
        state,
        SaveFile::Writing {
            path: text("/tmp/notas/hoy.txt"),
            write: WriteFile::AwaitParent {
                path: text("/tmp/notas/hoy.txt"),
                content: text("hola"),
                parent: text("/tmp/notas"),
            },
        }
    );
    assert_eq!(effect, Some(Effect::Exists { path: text("/tmp/notas") }));
    let (state, effect) = state.resume(Reply::Exists(true));
    assert_eq!(effect, Some(Effect::Create { path: text("/tmp/notas/hoy.txt") }));
    let (state, effect) = state.resume(Reply::Done);
    assert_eq!(effect, Some(Effect::Write { bytes: b"hola".to_vec() }));
    let (state, effect) = state.resume(Reply::Done);
    assert_eq!(effect, Some(Effect::Sync));
    let (state, effect) = state.resume(Reply::Done);
    assert_eq!(state, SaveFile::Done(Ok(text("/tmp/notas/hoy.txt"))));
    assert_eq!(effect, None);
}

#[test]
fn save_file_direct_saves_a_bare_file_name() {
    let (state, effect) = save_file_direct(text("notes.txt"), text("hola"));
    assert_eq!(
        state,
        SaveFile::Writing {
            path: text("notes.txt"),
            write: WriteFile::AwaitCreate { content: text("hola") },
        }
    );
    assert_eq!(effect, Some(Effect::Create { path: text("notes.txt") }));
    let (state, effect) = state.resume(Reply::Done);
    assert_eq!(effect, Some(Effect::Write { bytes: b"hola".to_vec() }));
    let (state, effect) = state.resume(Reply::Done);
    assert_eq!(effect, Some(Effect::Sync));
    let (state, effect) = state.resume(Reply::Done);
    assert_eq!(state, SaveFile::Done(Ok(text("notes.txt"))));
    assert_eq!(effect, None);

    let (state, effect) = save_file_direct(text("  notes.txt\n"), text("hola"));
    assert_eq!(
        state,
        SaveFile::Writing {
            path: text("notes.txt"),
            write: WriteFile::AwaitCreate { content: text("hola") },
        }
    );
    assert_eq!(effect, Some(Effect::Create { path: text("notes.txt") }));

    let (_, effect) = save_file_direct_in(text("notes.txt"), text("hola"), Some(String::new()));
    assert_eq!(effect, Some(Effect::Create { path: text("notes.txt") }));
}

#[test]
fn save_file_direct_of_a_relative_path_checks_its_directory() {
    let (state, effect) = save_file_direct(text("notas/hoy.txt"), text("hola"));
    assert_eq!(effect, Some(Effect::Exists { path: text("notas") }));
    let (state, effect) = state.resume(Reply::Exists(false));
    assert_eq!(
        state,
        SaveFile::Done(Err(CommandError::MissingParent { parent: text("notas") }))
    );
    assert_eq!(effect, None);

    let (_, effect) = save_file_direct(text("./hoy.txt"), text("hola"));
    assert_eq!(effect, Some(Effect::Exists { path: text(".") }));
}

#[test]
fn save_file_direct_without_a_parent_writes_at_once() {
    let (state, effect) = save_file_direct_in(text("/"), text("x"), None);
    assert_eq!(
        state,
        SaveFile::Writing { path: text("/"), write: WriteFile::AwaitCreate { content: text("x") } }
    );
    assert_eq!(effect, Some(Effect::Create { path: text("/") }));
    let (state, effect) = save_file_direct(text("/"), text("x"));
    assert_eq!(
        state,
        SaveFile::Writing { path: text("/"), write: WriteFile::AwaitCreate { content: text("x") } }
    );
    assert_eq!(effect, Some(Effect::Create { path: text("/") }));
}

#[test]
fn save_file_direct_passes_on_the_errors_of_the_write() {
    let (state, _) = save_file_direct_in(text("/ro/x.txt"), text("x"), None);
    let (state, effect) = state.resume(Reply::Failed(text("read-only file system")));
    assert_eq!(
        state,
        SaveFile::Done(Err(CommandError::File(FileError::Io {
            step: IoStep::Create,
            cause: text("read-only file system"),
        })))
    );
    assert_eq!(effect, None);
}

#[test]
fn save_file_as_suggests_the_file_name_of_the_default_path() {
    let (state, effect) =
        save_file_as(text("hola"), Some(text("  /home/ana/notas.txt ")), config());
    assert_eq!(
        state,
        SaveFile::Picking { content: text("hola"), selection: FileSelection::Shown }
    );
    assert_eq!(
        effect,
        Some(Effect::ShowFileDialog {
            request: FileDialog {
                mode: DialogMode::Save,
                filters: filters(),
                file_name: Some(text("notas.txt")),
            },
        })
    );
}

#[test]
fn save_file_as_suggests_nothing_without_a_usable_default() {
    let (_, effect) = save_file_as(text("hola"), None, config());
    assert_eq!(suggested_name(effect), None);
    let (_, effect) = save_file_as(text("hola"), Some(text("   ")), config());
    assert_eq!(suggested_name(effect), None);
    let (_, effect) = save_file_as(text("hola"), Some(text("/tmp/..")), config());
    assert_eq!(suggested_name(effect), None);
    let (_, effect) = save_file_as(text("hola"), Some(text("/")), config());
    assert_eq!(suggested_name(effect), None);
    let (_, effect) = save_file_as(text("hola"), Some(text("suelto.md")), config());
    assert_eq!(suggested_name(effect), Some(text("suelto.md")));
    let (_, effect) = save_file_as(text("hola"), Some(text("/tmp/carpeta/")), config());
    assert_eq!(suggested_name(effect), Some(text("carpeta")));
    let (_, effect) = save_file_as_named(text("hola"), Some(text("otro.txt")), config());
    assert_eq!(suggested_name(effect), Some(text("otro.txt")));
}

#[test]
fn save_file_as_writes_to_the_chosen_path() {
    let (state, _) = save_file_as(text("hola"), None, config());
    let (state, effect) = state.resume(Reply::Selection(Some(text("/tmp/nuevo/a.txt"))));
    assert_eq!(effect, Some(Effect::Exists { path: text("/tmp/nuevo") }));
    let (state, effect) = state.resume(Reply::Exists(false));
    assert_eq!(effect, Some(Effect::CreateDirAll { path: text("/tmp/nuevo") }));
    let (state, effect) = state.resume(Reply::Done);
    assert_eq!(effect, Some(Effect::Create { path: text("/tmp/nuevo/a.txt") }));
    let (state, effect) = state.resume(Reply::Done);
    assert_eq!(effect, Some(Effect::Write { bytes: b"hola".to_vec() }));
    let (state, effect) = state.resume(Reply::Done);
    assert_eq!(effect, Some(Effect::Sync));
    let (state, effect) = state.resume(Reply::Done);
    assert_eq!(state, SaveFile::Done(Ok(text("/tmp/nuevo/a.txt"))));
    assert_eq!(effect, None);
}

#[test]
fn save_file_as_without_a_selection_is_an_error() {
    let (state, _) = save_file_as(text("hola"), None, config());
    let (state, effect) = state.resume(Reply::Selection(None));
    assert_eq!(state, SaveFile::Done(Err(CommandError::NoFileSelected)));
    assert_eq!(effect, None);

    let (state, _) = save_file_as(text("hola"), None, config());
    let (state, effect) = state.resume(Reply::Disconnected);
    assert_eq!(state, SaveFile::Done(Err(CommandError::Dialog(DialogError::Disconnected))));
    assert_eq!(effect, None);
}

#[test]
fn rename_file_moves_within_the_directory() {
    let (state, effect) = rename_file(text("/a/b/old.txt"), text("new.txt"));
    assert_eq!(
        state,
        RenameCommand::AwaitDestination {
            old_path: text("/a/b/old.txt"),
            new_path: text("/a/b/new.txt"),
        }
    );
    assert_eq!(effect, Some(Effect::Exists { path: text("/a/b/new.txt") }));
    let (state, effect) = state.resume(Reply::Exists(false));
    assert_eq!(
        state,
        RenameCommand::Renaming { new_path: text("/a/b/new.txt"), rename: RenameFile::AwaitRename }
    );
    assert_eq!(
        effect,
        Some(Effect::Rename { from: text("/a/b/old.txt"), to: text("/a/b/new.txt") })
    );
    let (state, effect) = state.resume(Reply::Done);
    assert_eq!(state, RenameCommand::Done(Ok(text("/a/b/new.txt"))));
    assert_eq!(effect, None);
}

#[test]
fn rename_file_onto_an_existing_file_moves_nothing() {
    let (state, _) = rename_file(text("/a/b/old.txt"), text("taken.txt"));
    let (state, effect) = state.resume(Reply::Exists(true));
    assert_eq!(state, RenameCommand::Done(Err(CommandError::DestinationExists)));
    assert_eq!(effect, None);
    let (state, effect) = state.resume(Reply::Done);
    assert_eq!(state, RenameCommand::Done(Err(CommandError::DestinationExists)));
    assert_eq!(effect, None);
    assert_eq!(
        CommandError::DestinationExists.message(),
        "Ya existe un archivo con ese nombre"
    );
}

#[test]
fn rename_file_needs_a_parent_directory() {
    let (state, effect) = rename_file(text("/"), text("new.txt"));
    assert_eq!(state, RenameCommand::Done(Err(CommandError::NoParent)));
    assert_eq!(effect, None);
    let (state, effect) = rename_file(String::new(), text("new.txt"));
    assert_eq!(state, RenameCommand::Done(Err(CommandError::NoParent)));
    assert_eq!(effect, None);
    let (state, effect) = rename_file_in(text("/a/old.txt"), text("new.txt"), None);
    assert_eq!(state, RenameCommand::Done(Err(CommandError::NoParent)));
    assert_eq!(effect, None);
    assert_eq!(CommandError::NoParent.message(), "No se pudo obtener el directorio padre");
}

#[test]
fn rename_file_joins_the_new_name_to_the_parent() {
    let (_, effect) = rename_file(text("old.txt"), text("new.txt"));
    assert_eq!(effect, Some(Effect::Exists { path: text("new.txt") }));
    let (_, effect) = rename_file(text("dir/old.txt"), text("new.txt"));
    assert_eq!(effect, Some(Effect::Exists { path: text("dir/new.txt") }));
    let (_, effect) = rename_file(text("/old.txt"), text("new.txt"));
    assert_eq!(effect, Some(Effect::Exists { path: text("/new.txt") }));
    let (_, effect) = rename_file(text("/a/b/old.txt"), text("con espacio.md"));
    assert_eq!(effect, Some(Effect::Exists { path: text("/a/b/con espacio.md") }));
    let (_, effect) = rename_file(text("/a/b/old.txt"), text("..oculto"));
    assert_eq!(effect, Some(Effect::Exists { path: text("/a/b/..oculto") }));
    let (_, effect) = rename_file_in(text("/x/old.txt"), text("new.txt"), Some(text("/y")));
    assert_eq!(effect, Some(Effect::Exists { path: text("/y/new.txt") }));
}

#[test]
fn rename_file_refuses_a_name_that_leaves_the_directory() {
    for name in ["/etc/abs.txt", "../x", "sub/x", "..", ".", "", "x/", "a/../b", "/"] {
        let (state, effect) = rename_file(text("/a/b/old.txt"), text(name));
        assert_eq!(state, RenameCommand::Done(Err(CommandError::InvalidFileName)), "{:?}", name);
        assert_eq!(effect, None);
        let (state, effect) = state.resume(Reply::Exists(false));
        assert_eq!(state, RenameCommand::Done(Err(CommandError::InvalidFileName)));
        assert_eq!(effect, None);
    }
    let (state, effect) = rename_file(text("old.txt"), text("../new.txt"));
    assert_eq!(state, RenameCommand::Done(Err(CommandError::InvalidFileName)));
    assert_eq!(effect, None);
    assert_eq!(CommandError::InvalidFileName.message(), "El nombre de archivo no es válido");
}

#[test]
fn rename_file_to_needs_the_new_path_in_the_directory() {
    let (state, effect) =
        rename_file_to(text("/a/old.txt"), text("/a"), text("/a/new.txt"), Some(text("/a")));
    assert_eq!(
        state,
        RenameCommand::AwaitDestination { old_path: text("/a/old.txt"), new_path: text("/a/new.txt") }
    );
    assert_eq!(effect, Some(Effect::Exists { path: text("/a/new.txt") }));

    let (state, effect) =
        rename_file_to(text("/a/old.txt"), text("/a"), text("/etc/x"), Some(text("/etc")));
    assert_eq!(state, RenameCommand::Done(Err(CommandError::InvalidFileName)));
    assert_eq!(effect, None);

    let (state, effect) = rename_file_to(text("/a/old.txt"), text("/a"), text("/"), None);
    assert_eq!(state, RenameCommand::Done(Err(CommandError::InvalidFileName)));
    assert_eq!(effect, None);
}

#[test]
fn rename_file_never_asks_for_a_move_out_of_the_directory() {
    let names = ["new.txt", "/etc/x", "../x", "sub/x", "..", "x/", "otro nombre"];
    for name in names {
        for exists in [false, true] {
            let (mut state, mut effect) = rename_file(text("/a/b/old.txt"), text(name));
            while let Some(asked) = effect {
                let reply = match asked {
                    Effect::Exists { path } => {
                        assert!(path.starts_with("/a/b/") && !path[5..].contains('/'));
                        Reply::Exists(exists)
                    }
                    Effect::Rename { from, to } => {
                        assert_eq!(from, "/a/b/old.txt");
                        assert!(to.starts_with("/a/b/") && !to[5..].contains('/'));
                        Reply::Done
                    }
                    other => panic!("not asked by a rename: {:?}", other),
                };
                (state, effect) = state.resume(reply);
            }
            if let RenameCommand::Done(Ok(path)) = state {
                assert!(path.starts_with("/a/b/") && !path[5..].contains('/'));
            }
        }
    }
}

#[test]
fn rename_file_passes_on_the_error_of_the_move() {
    let (state, _) = rename_file(text("/a/b/old.txt"), text("new.txt"));
    let (state, _) = state.resume(Reply::Exists(false));
    let (state, effect) = state.resume(Reply::Failed(text("permission denied")));
    let error = match state {
        RenameCommand::Done(Err(error)) => error,
        other => panic!("not an error: {:?}", other),
    };
    assert_eq!(effect, None);
    assert_eq!(error.message(), "Error al renombrar el archivo: permission denied");
}

#[test]
fn confirm_dialog_returns_the_answer() {
    let (state, effect) = show_confirm_dialog(text("¿Guardar los cambios?"), text("FasText"));
    assert_eq!(state, Confirmation::Shown);
    assert_eq!(
        effect,
        Some(Effect::ShowConfirmDialog {
            title: text("FasText"),
            message: text("¿Guardar los cambios?"),
        })
    );
    let (state, effect) = state.resume(Reply::Answer(false));
    assert_eq!(state, Confirmation::Delivered(Ok(false)));
    assert_eq!(effect, None);
}

#[test]
fn confirm_dialog_reports_a_dropped_channel() {
    let (state, _) = show_confirm_dialog(text("¿Salir?"), text("FasText"));
    let (state, _) = state.resume(Reply::Disconnected);
    assert_eq!(state, Confirmation::Delivered(Err(DialogError::Disconnected)));
    assert_eq!(
        CommandError::Dialog(DialogError::Disconnected).message(),
        "Error al recibir la respuesta del diálogo"
    );
}

#[test]
fn open_url_refuses_a_blank_address() {
    let (state, effect) = open_url_in_browser(text("  \n"));
    assert_eq!(state, OpenUrl::Done(Err(CommandError::EmptyUrl)));
    assert_eq!(effect, None);
    assert_eq!(CommandError::EmptyUrl.message(), "URL vacía");
}

#[test]
fn open_url_hands_the_address_over_as_given() {
    let (state, effect) = open_url_in_browser(text(" https://example.org "));
    assert_eq!(state, OpenUrl::AwaitOpen);
    assert_eq!(effect, Some(Effect::OpenUrl { url: text(" https://example.org ") }));
    let (state, effect) = state.resume(Reply::Done);
    assert_eq!(state, OpenUrl::Done(Ok(())));
    assert_eq!(effect, None);

    let (state, _) = open_url_in_browser(text("https://example.org"));
    let (state, _) = state.resume(Reply::Failed(text("no handler")));
    assert_eq!(state, OpenUrl::Done(Err(CommandError::Shell(text("no handler")))));
    assert_eq!(CommandError::Shell(text("no handler")).message(), "no handler");

    let (state, _) = open_url_in_browser(text("https://example.org"));
    let (state, _) = state.resume(Reply::Answer(true));
    assert_eq!(state, OpenUrl::Done(Err(CommandError::UnexpectedReply)));
    assert_eq!(CommandError::UnexpectedReply.message(), "Respuesta inesperada");
}

#[test]
fn check_update_reports_an_available_update() {
    let (state, effect) = check_update();
    assert_eq!(state, CheckUpdate::AwaitCheck);
    assert_eq!(effect, Some(Effect::CheckUpdate));
    let (state, effect) = state.resume(Reply::Update(UpdateResponse {
        available: true,
        version: text("1.2.0"),
        date: Some(text("2024-05-01")),
        body: None,
    }));
    assert_eq!(
        state,
        CheckUpdate::Done(Ok(UpdateReport::Available {
            version: text("1.2.0"),
            date: text("2024-05-01"),
            body: String::new(),
        }))
    );
    assert_eq!(effect, None);
}

#[test]
fn check_update_reports_that_there_is_none() {
    let (state, _) = check_update();
    let (state, _) = state.resume(Reply::Update(UpdateResponse {
        available: false,
        version: text("1.0.0"),
        date: None,
        body: Some(text("notas")),
    }));
    assert_eq!(state, CheckUpdate::Done(Ok(UpdateReport::UpToDate)));
}

#[test]
fn check_update_reports_a_service_that_failed() {
    let (state, _) = check_update();
    let (state, _) = state.resume(Reply::Failed(text("sin red")));
    assert_eq!(state, CheckUpdate::Done(Err(CommandError::UpdateCheck(text("sin red")))));
    assert_eq!(
        CommandError::UpdateCheck(text("sin red")).message(),
        "Error al verificar actualizaciones: sin red"
    );
    let (state, _) = check_update();
    let (state, _) = state.resume(Reply::Done);
    assert_eq!(state, CheckUpdate::Done(Err(CommandError::UnexpectedReply)));
}

#[test]
fn install_update_installs_what_is_available() {
    let (state, effect) = install_update();
    assert_eq!(state, InstallUpdate::AwaitCheck);
    assert_eq!(effect, Some(Effect::CheckUpdate));
    let (state, effect) = state.resume(Reply::Update(UpdateResponse {
        available: true,
        version: text("1.2.0"),
        date: None,
        body: None,
    }));
    assert_eq!(state, InstallUpdate::AwaitInstall);
    assert_eq!(effect, Some(Effect::InstallUpdate));
    let (state, effect) = state.resume(Reply::Done);
    assert_eq!(state, InstallUpdate::Done(Ok(())));
    assert_eq!(effect, None);
}

#[test]
fn install_update_without_an_update_installs_nothing() {
    let (state, _) = install_update();
    let (state, effect) = state.resume(Reply::Update(UpdateResponse {
        available: false,
        version: text("1.0.0"),
        date: None,
        body: None,
    }));
    assert_eq!(state, InstallUpdate::Done(Err(CommandError::NoUpdate)));
    assert_eq!(effect, None);
    assert_eq!(CommandError::NoUpdate.message(), "No hay actualización disponible");
}

#[test]
fn install_update_reports_what_failed() {
    let (state, _) = install_update();
    let (state, _) = state.resume(Reply::Failed(text("sin red")));
    assert_eq!(state, InstallUpdate::Done(Err(CommandError::UpdateCheck(text("sin red")))));

    let (state, _) = install_update();
    let (state, _) = state.resume(Reply::Update(UpdateResponse {
        available: true,
        version: text("1.2.0"),
        date: None,
        body: None,
    }));
    let (state, _) = state.resume(Reply::Failed(text("firma inválida")));
    assert_eq!(
        state,
        InstallUpdate::Done(Err(CommandError::UpdateInstall(text("firma inválida"))))
    );
    assert_eq!(
        CommandError::UpdateInstall(text("firma inválida")).message(),
        "Error al descargar e instalar: firma inválida"
    );
}

#[test]
fn errors_of_lower_layers_keep_their_messages() {
    assert_eq!(
        CommandError::File(FileError::TooLarge).message(),
        "El archivo es demasiado grande (máximo 100MB)"
    );
    assert_eq!(
        CommandError::File(FileError::Io { step: IoStep::Sync, cause: text("disco lleno") })
            .message(),
        "Error al sincronizar el archivo: disco lleno"
    );
    assert_eq!(
        CommandError::Dialog(DialogError::UnexpectedReply).message(),
        "Respuesta inesperada del diálogo"
    );
    assert_eq!(
        CommandError::MissingParent { parent: text("a\"b") }.message(),
        "El directorio padre no existe: \"a\\\"b\""
    );
}

#[test]
fn commands_refuse_a_reply_that_does_not_fit() {
    let (state, _) = save_file_direct(text("/tmp/notas/hoy.txt"), text("hola"));
    let (state, effect) = state.resume(Reply::Done);
    assert_eq!(state, SaveFile::Done(Err(CommandError::UnexpectedReply)));
    assert_eq!(effect, None);

    let (state, _) = rename_file(text("/a/b/old.txt"), text("new.txt"));
    let (state, effect) = state.resume(Reply::Size(3));
    assert_eq!(state, RenameCommand::Done(Err(CommandError::UnexpectedReply)));
    assert_eq!(effect, None);

    let (state, _) = open_file(config());
    let (state, _) = state.resume(Reply::Selection(Some(text("/tmp/x.txt"))));
    let (state, effect) = state.resume(Reply::Answer(true));
    assert_eq!(state, OpenFile::Done(Err(CommandError::File(FileError::UnexpectedReply))));
    assert_eq!(effect, None);

    let (state, _) = save_file_as(text("hola"), None, config());
    let (state, effect) = state.resume(Reply::Exists(true));
    assert_eq!(state, SaveFile::Done(Err(CommandError::Dialog(DialogError::UnexpectedReply))));
    assert_eq!(effect, None);
}

fn replies() -> Vec<Reply> {
    vec![
        Reply::Size(1),
        Reply::Size(u64::MAX),
        Reply::Exists(true),
        Reply::Exists(false),
        Reply::Done,
        Reply::Content(vec![b'a']),
        Reply::Content(vec![0xff]),
        Reply::Failed(text("boom")),
        Reply::Selection(Some(text("/tmp/a/b.txt"))),
        Reply::Selection(None),
        Reply::Answer(true),
        Reply::Answer(false),
        Reply::Disconnected,
        Reply::Update(UpdateResponse {
            available: true,
            version: text("2"),
            date: None,
            body: None,
        }),
    ]
}

fn pick(choice: usize) -> Reply {
    let mut all = replies();
    let index = choice % all.len();
    all.swap_remove(index)
}

#[test]
fn open_ends_within_its_bound_whatever_the_shell_says() {
    let kinds = replies().len();
    for first in 0..kinds {
        for second in 0..kinds {
            let (mut state, mut effect) = open_file(config());
            let mut asked = if effect.is_some() { 1 } else { 0 };
            for step in 0..5 {
                let choice = if step == 0 { first } else { second + step };
                (state, effect) = state.resume(pick(choice));
                if effect.is_some() {
                    asked += 1;
                }
            }
            assert!(matches!(state, OpenFile::Done(_)));
            assert_eq!(effect, None);
            assert!(asked <= 5);
        }
    }
}

#[test]
fn save_ends_within_its_bound_whatever_the_shell_says() {
    let kinds = replies().len();
    for first in 0..kinds {
        for second in 0..kinds {
            for third in 0..kinds {
                let (mut state, mut effect) = save_file_direct(text("/tmp/a/b.txt"), text("x"));
                let mut asked = if effect.is_some() { 1 } else { 0 };
                for step in 0..7 {
                    let choice = match step {
                        0 => first,
                        1 => second,
                        2 => third,
                        _ => first + second + third + step,
                    };
                    (state, effect) = state.resume(pick(choice));
                    if effect.is_some() {
                        asked += 1;
                    }
                }
                assert!(matches!(state, SaveFile::Done(_)));
                assert_eq!(effect, None);
                assert!(asked <= 7);
            }
        }
    }
}

#[test]
fn rename_ends_within_its_bound_whatever_the_shell_says() {
    let kinds = replies().len();
    for first in 0..kinds {
        for second in 0..kinds {
            for third in 0..kinds {
                let (state, _) = rename_file(text("/a/b/old.txt"), text("new.txt"));
                let (state, _) = state.resume(pick(first));
                let (state, _) = state.resume(pick(second));
                let (state, effect) = state.resume(pick(third));
                assert!(matches!(state, RenameCommand::Done(_)));
                assert_eq!(effect, None);
            }
        }
    }
}

#[test]
fn faithful_shell_is_never_refused_by_save() {
    for code in 0..128usize {
        let (mut state, mut effect) = save_file_direct(text("/tmp/a/b.txt"), text("x"));
        let mut step = 0;
        while let Some(asked) = effect {
            let first = (code >> step) & 1 == 0;
            let reply = match asked {
                Effect::Exists { .. } => Reply::Exists(first),
                _ if first => Reply::Done,
                _ => Reply::Failed(text("boom")),
            };
            (state, effect) = state.resume(reply);
            step += 1;
            assert!(step <= 7);
        }
        match state {
            SaveFile::Done(Err(CommandError::UnexpectedReply)) => panic!("refused"),
            SaveFile::Done(Err(CommandError::File(FileError::UnexpectedReply))) => {
                panic!("refused")
            }
            SaveFile::Done(_) => {}
            other => panic!("not ended: {:?}", other),
        }
    }
}
