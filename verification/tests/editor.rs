use lemo_gui::editor::{
    dialog_setup, FileDialogMode, font_file_name, font_index, font_labels, Align, Command, DialogKind, Editor, ImageDisplay, Msg,
    StyleEdit,
};
use lemo_gui::history::{History, HISTORY_LIMIT};

type E = Editor<u32>;
type M = Msg<u32, u8, i32>;
type C = Command<u32, u8, i32>;

fn buckets() -> Vec<u32> {
    vec![10, 12, 16, 20, 24]
}

fn editor() -> E {
    Editor::new(0, buckets(), "/home".to_string())
}

fn fonts() -> Vec<String> {
    vec!["/fonts/a.ttf".to_string(), "/fonts/b.otf".to_string()]
}

fn send(e: &mut E, m: M) -> C {
    e.update(m, &fonts(), "/home")
}

fn popups(e: &E) -> usize {
    (e.menu_open().is_some() as usize) + (e.size_open() as usize) + (e.font_open() as usize)
}

#[test]
fn new_editor_starts_at_bucket_sixteen() {
    let e = editor();
    assert_eq!(e.size_index(), 2);
    assert_eq!(e.size_bucket(), Some(16));
    let e2: E = Editor::new(0, vec![16, 18], String::new());
    assert_eq!(e2.size_index(), 0);
    let e3: E = Editor::new(0, vec![11], String::new());
    assert_eq!(e3.size_index(), 2);
    assert_eq!(e3.size_bucket(), None);
    assert_eq!(e.dialog_dir(), "/home");
    assert!(e.file_path().is_none() && e.dialog().is_none());
    assert_eq!(e.undo_len(), 0);
    assert_eq!(e.redo_len(), 0);
}

#[test]
fn history_undo_then_redo_restores() {
    let mut h: History<u32> = History::new();
    let mut doc = 1;
    h.push_undo(0);
    assert_eq!(h.undo(&mut doc), true);
    assert_eq!(doc, 0);
    assert_eq!(h.redo(&mut doc), true);
    assert_eq!(doc, 1);
    assert_eq!(h.undo_len(), 1);
    assert_eq!(h.redo_len(), 0);
    let mut empty: History<u32> = History::new();
    assert_eq!(empty.undo(&mut doc), false);
    assert_eq!(empty.redo(&mut doc), false);
    assert_eq!(doc, 1);
}

#[test]
fn history_keeps_at_most_sixty_four_states() {
    let mut h: History<usize> = History::new();
    for i in 0..100 {
        h.push_undo(i);
    }
    assert_eq!(h.undo_len(), HISTORY_LIMIT);
    let mut doc = 100;
    assert!(h.undo(&mut doc));
    assert_eq!(doc, 99);
    for _ in 0..63 {
        assert!(h.undo(&mut doc));
    }
    assert_eq!(doc, 36);
    assert!(!h.undo(&mut doc));
    assert_eq!(h.redo_len(), HISTORY_LIMIT);
}

#[test]
fn recording_an_edit_clears_redo() {
    let mut e = editor();
    e.mutate_doc(1, true, 16);
    e.mutate_doc(2, true, 16);
    assert!(matches!(send(&mut e, Msg::Undo), Command::Restored));
    assert_eq!(*e.doc(), 1);
    assert_eq!(e.redo_len(), 1);
    e.mutate_doc(3, true, 16);
    assert_eq!(e.redo_len(), 0);
    assert_eq!(e.undo_len(), 2);
    assert!(matches!(send(&mut e, Msg::Redo), Command::Nothing));
    assert_eq!(*e.doc(), 3);
}

#[test]
fn unchanged_edit_is_not_recorded() {
    let mut e = editor();
    e.mutate_doc(5, false, 20);
    assert_eq!(*e.doc(), 5);
    assert_eq!(e.undo_len(), 0);
    assert_eq!(e.size_index(), 3);
    e.replace_doc(6, true, 99);
    assert_eq!(e.undo_len(), 1);
    assert_eq!(e.size_index(), 3);
}

#[test]
fn undo_redo_round_trip_through_update() {
    let mut e = editor();
    e.replace_doc(7, true, 16);
    assert!(matches!(send(&mut e, Msg::Undo), Command::Restored));
    assert_eq!(*e.doc(), 0);
    assert!(matches!(send(&mut e, Msg::Redo), Command::Restored));
    assert_eq!(*e.doc(), 7);
    assert!(matches!(send(&mut e, Msg::Redo), Command::Nothing));
}

#[test]
fn at_most_one_popup_is_open() {
    let mut e = editor();
    send(&mut e, Msg::SizeMenu(true));
    assert!(e.size_open());
    assert_eq!(popups(&e), 1);
    send(&mut e, Msg::FontMenu(true));
    assert!(e.font_open() && !e.size_open());
    assert_eq!(popups(&e), 1);
    send(&mut e, Msg::MenuToggle(Some(2)));
    assert_eq!(e.menu_open(), Some(2));
    assert_eq!(popups(&e), 1);
    send(&mut e, Msg::SizeMenu(true));
    assert_eq!(e.menu_open(), None);
    assert_eq!(popups(&e), 1);
    send(&mut e, Msg::SizeMenu(false));
    assert_eq!(popups(&e), 0);
    send(&mut e, Msg::MenuToggle(Some(0)));
    send(&mut e, Msg::ToggleBold);
    assert_eq!(popups(&e), 0);
}

#[test]
fn style_messages_ask_for_edits() {
    let mut e = editor();
    assert!(matches!(send(&mut e, Msg::ToggleItalic), Command::EditSelection(StyleEdit::ToggleItalic)));
    assert!(matches!(send(&mut e, Msg::SetSize(4)), Command::EditSelection(StyleEdit::Size(24))));
    assert_eq!(e.size_index(), 4);
    assert!(matches!(send(&mut e, Msg::SetSize(9)), Command::Nothing));
    assert_eq!(e.size_index(), 9);
    assert!(matches!(send(&mut e, Msg::SetFont(1)), Command::EditSelection(StyleEdit::Font(1))));
    assert!(matches!(send(&mut e, Msg::SetFont(2)), Command::Nothing));
    assert!(matches!(send(&mut e, Msg::SetColor(9)), Command::EditSelection(StyleEdit::Color(9))));
    assert!(matches!(
        send(&mut e, Msg::SetAlign(Align::Center)),
        Command::EditSelection(StyleEdit::Align(Align::Center))
    ));
    assert!(matches!(send(&mut e, Msg::Doc(42)), Command::ReplaceDoc(42)));
    assert!(matches!(send(&mut e, Msg::Scroll(-3)), Command::ScrollDoc(-3)));
    assert!(matches!(send(&mut e, Msg::Paste), Command::Paste));
}

#[test]
fn save_without_file_opens_the_save_dialog() {
    let mut e = editor();
    send(&mut e, Msg::FontMenu(true));
    assert!(matches!(send(&mut e, Msg::Save), Command::DialogOpened));
    assert_eq!(e.dialog(), Some(DialogKind::SaveDoc));
    assert_eq!(e.dialog_filename(), "untitled.toml");
    assert_eq!(e.dialog_dir(), "/home");
    assert_eq!(popups(&e), 0);
    match send(&mut e, Msg::DialogConfirm("/docs/a.toml".to_string())) {
        Command::WriteDoc(p) => assert_eq!(p, "/docs/a.toml"),
        _ => panic!("expected a write"),
    }
    assert!(e.dialog().is_none());
    e.saved("/docs/a.toml".to_string());
    match send(&mut e, Msg::Save) {
        Command::WriteDoc(p) => assert_eq!(p, "/docs/a.toml"),
        _ => panic!("expected a write"),
    }
}

#[test]
fn dialog_starts_in_the_directory_of_the_file() {
    let mut e = editor();
    e.saved("/docs/notes/a.toml".to_string());
    send(&mut e, Msg::SaveAs);
    assert_eq!(e.dialog_dir(), "/docs/notes");
    assert_eq!(e.dialog_filename(), "a.toml");
    send(&mut e, Msg::DialogCancel);
    assert!(e.dialog().is_none() && e.dialog_selected().is_none());
    e.saved("a.toml".to_string());
    send(&mut e, Msg::Open);
    assert_eq!(e.dialog(), Some(DialogKind::OpenDoc));
    assert_eq!(e.dialog_dir(), "/home");
    assert_eq!(e.dialog_filename(), "");
}

#[test]
fn dialog_selection_and_directory() {
    let mut e = editor();
    send(&mut e, Msg::SaveAs);
    assert!(matches!(send(&mut e, Msg::DialogSelect(Some(3))), Command::LookupFileName(3)));
    assert_eq!(e.dialog_selected(), Some(3));
    e.set_dialog_filename("b.toml".to_string());
    assert_eq!(e.dialog_filename(), "b.toml");
    assert!(matches!(send(&mut e, Msg::DialogDir("/tmp".to_string())), Command::ResetDialogScroll));
    assert_eq!(e.dialog_dir(), "/tmp");
    assert_eq!(e.dialog_selected(), None);
    send(&mut e, Msg::DialogFilename("c.toml".to_string()));
    assert_eq!(e.dialog_filename(), "c.toml");
    send(&mut e, Msg::Open);
    assert!(matches!(send(&mut e, Msg::DialogSelect(Some(1))), Command::Nothing));
    assert!(matches!(send(&mut e, Msg::DialogScroll(5)), Command::ScrollDialog(5)));
}

#[test]
fn confirm_dispatches_on_the_dialog_kind() {
    let mut e = editor();
    send(&mut e, Msg::Open);
    match send(&mut e, Msg::DialogConfirm("/d/x.toml".to_string())) {
        Command::ReadDoc(p) => assert_eq!(p, "/d/x.toml"),
        _ => panic!("expected a read"),
    }
    e.opened(11, true, 12, "/d/x.toml".to_string());
    assert_eq!(e.file_path().map(|p| p.as_str()), Some("/d/x.toml"));
    assert_eq!(e.size_index(), 1);
    assert_eq!(*e.doc(), 11);

    send(&mut e, Msg::AddFont);
    assert!(matches!(send(&mut e, Msg::DialogConfirm("/fonts/a.ttf".to_string())), Command::Nothing));
    send(&mut e, Msg::AddFont);
    match send(&mut e, Msg::DialogConfirm("/fonts/c.ttf".to_string())) {
        Command::AddFont(p) => assert_eq!(p, "/fonts/c.ttf"),
        _ => panic!("expected a new font"),
    }

    send(&mut e, Msg::InsertImage { display: ImageDisplay::Block, embed: true });
    assert_eq!(e.dialog(), Some(DialogKind::OpenImage { display: ImageDisplay::Block, embed: true }));
    match send(&mut e, Msg::DialogConfirm("/i.png".to_string())) {
        Command::InsertImage { path, display, embed } => {
            assert_eq!(path, "/i.png");
            assert_eq!(display, ImageDisplay::Block);
            assert!(embed);
        }
        _ => panic!("expected an image"),
    }
    assert!(matches!(send(&mut e, Msg::DialogConfirm("/x".to_string())), Command::Nothing));
}

#[test]
fn new_document_forgets_the_file() {
    let mut e = editor();
    e.saved("/d/a.toml".to_string());
    send(&mut e, Msg::MenuToggle(Some(0)));
    assert!(matches!(send(&mut e, Msg::New), Command::NewDoc));
    e.new_document(0, true, 24);
    assert!(e.file_path().is_none());
    assert_eq!(e.size_index(), 2);
    assert_eq!(e.menu_open(), None);
    assert_eq!(e.undo_len(), 1);
}

#[test]
fn font_list_labels_and_index() {
    assert_eq!(font_file_name("/fonts/a.ttf"), "a.ttf");
    assert_eq!(font_file_name("b.otf"), "b.otf");
    assert_eq!(font_file_name("/"), "/");
    assert_eq!(font_file_name(".."), "..");
    assert_eq!(font_labels(&fonts()), vec!["a.ttf".to_string(), "b.otf".to_string()]);
    assert_eq!(font_index(0, 2), 0);
    assert_eq!(font_index(1, 2), 1);
    assert_eq!(font_index(5, 2), 1);
    assert_eq!(font_index(3, 0), 0);
}

#[test]
fn doc_mut_changes_the_document_without_history() {
    let mut e = editor();
    send(&mut e, Msg::MenuToggle(Some(1)));
    *e.doc_mut() = 9;
    assert_eq!(*e.doc(), 9);
    assert_eq!(e.undo_len(), 0);
    assert_eq!(e.redo_len(), 0);
    assert_eq!(e.menu_open(), Some(1));
}

#[test]
fn dialog_setup_per_kind() {
    assert_eq!(dialog_setup(DialogKind::OpenDoc), (FileDialogMode::Open, ".toml".to_string()));
    assert_eq!(dialog_setup(DialogKind::SaveDoc), (FileDialogMode::Save, ".toml".to_string()));
    assert_eq!(dialog_setup(DialogKind::OpenFont), (FileDialogMode::Open, ".ttf,.otf".to_string()));
    assert_eq!(
        dialog_setup(DialogKind::OpenImage { display: ImageDisplay::Inline, embed: false }),
        (FileDialogMode::Open, ".png,.jpg,.jpeg,.gif,.bmp,.webp".to_string())
    );
}
