//! State machine of the rich text editor example: menus, popups, the file
//! dialog, the document with its undo/redo history, and the font size list.
//!
//! The editor does not look inside documents. A message that needs the
//! document changed, a file read or written, or a directory listed returns a
//! [`Command`] that tells the caller what to do; the caller then reports the
//! result through [`Editor::mutate_doc`], [`Editor::replace_doc`],
//! [`Editor::new_document`], [`Editor::opened`], [`Editor::saved`] or
//! [`Editor::set_dialog_filename`].
use vstd::prelude::*;

use crate::history::{record_step, redo_step, undo_step, History, HISTORY_LIMIT};

verus! {

/// How an image sits in the text.
#[derive(Clone, Copy, Debug, PartialEq, Eq, Structural)]
pub enum ImageDisplay {
    Inline,
    Block,
}

/// Paragraph alignment.
#[derive(Clone, Copy, Debug, PartialEq, Eq, Structural)]
pub enum Align {
    Left,
    Center,
    Right,
}

/// What the file dialog was opened for.
#[derive(Clone, Copy, Debug, PartialEq, Eq, Structural)]
pub enum DialogKind {
    OpenDoc,
    SaveDoc,
    OpenFont,
    OpenImage { display: ImageDisplay, embed: bool },
}

/// A change to the style of the selected text; `C` is the color type.
#[derive(Clone, Copy, Debug, PartialEq, Eq)]
pub enum StyleEdit<C> {
    ToggleBold,
    ToggleItalic,
    ToggleUnderline,
    Size(u32),
    Font(u8),
    Color(C),
    Align(Align),
}

/// Messages of the editor. `D` is the document type, `C` the color type and
/// `S` the scroll position type.
pub enum Msg<D, C, S> {
    ToggleBold,
    ToggleItalic,
    ToggleUnderline,
    SetSize(usize),
    SizeMenu(bool),
    SetFont(usize),
    FontMenu(bool),
    SetColor(C),
    SetAlign(Align),
    Doc(D),
    Scroll(S),
    New,
    Open,
    Save,
    SaveAs,
    Undo,
    Redo,
    Cut,
    Copy,
    Paste,
    SelectAll,
    AddFont,
    InsertImage { display: ImageDisplay, embed: bool },
    MenuToggle(Option<usize>),
    DialogDir(String),
    DialogSelect(Option<usize>),
    DialogFilename(String),
    DialogConfirm(String),
    DialogCancel,
    DialogScroll(S),
}

/// What the caller does after a message.
pub enum Command<D, C, S> {
    /// Nothing more.
    Nothing,
    /// Apply the edit to the selection of a copy of the document, then hand
    /// the copy to [`Editor::mutate_doc`].
    EditSelection(StyleEdit<C>),
    /// Hand this document to [`Editor::replace_doc`].
    ReplaceDoc(D),
    /// Store the scroll position in the document and in the view.
    ScrollDoc(S),
    /// Build an empty document that keeps the focus of the current one and
    /// hand it to [`Editor::new_document`].
    NewDoc,
    /// Write the document to this path; on success call [`Editor::saved`].
    WriteDoc(String),
    /// Read and parse the document at this path; on success hand it to
    /// [`Editor::opened`].
    ReadDoc(String),
    /// Undo or redo put another document in place: give it the focus flag of
    /// the one it replaced, then sync the size index and the scroll position.
    Restored,
    /// Copy the selection to the clipboard and delete it when it is not empty.
    Cut,
    /// Copy the selection to the clipboard when it is not empty.
    Copy,
    /// Paste the clipboard when it is not empty.
    Paste,
    /// Select the whole document.
    SelectAll,
    /// Add this font file to the document and select it.
    AddFont(String),
    /// Insert the image at this path.
    InsertImage { path: String, display: ImageDisplay, embed: bool },
    /// The file dialog opened: take the focus from the document and scroll
    /// the dialog to the top.
    DialogOpened,
    /// Scroll the dialog to the top.
    ResetDialogScroll,
    /// Scroll the dialog to this position.
    ScrollDialog(S),
    /// Look up the name of entry `i` of the dialog's directory (`.toml`
    /// files) and hand it to [`Editor::set_dialog_filename`].
    LookupFileName(usize),
}

/// What `std::path::Path::parent` gives for a path, as text.
pub uninterp spec fn path_parent(path: Seq<char>) -> Option<Seq<char>>;

/// What `std::path::Path::file_name` gives for a path, as text.
pub uninterp spec fn path_file_name(path: Seq<char>) -> Option<Seq<char>>;

/// The text of an optional string.
pub open spec fn opt_view(s: Option<String>) -> Option<Seq<char>> {
    match s {
        Some(t) => Some(t@),
        None => None,
    }
}

/// The parent directory of a path, through `std::path::Path::parent`.
#[verifier::external_body]
fn parent_of(path: &str) -> (dir: Option<String>)
    ensures
        opt_view(dir) == path_parent(path@),
{
    match std::path::Path::new(path).parent() {
        Some(d) => Some(d.to_string_lossy().into_owned()),
        None => None,
    }
}

/// The last component of a path, through `std::path::Path::file_name`.
#[verifier::external_body]
fn file_name_of(path: &str) -> (name: Option<String>)
    ensures
        opt_view(name) == path_file_name(path@),
{
    match std::path::Path::new(path).file_name() {
        Some(n) => Some(n.to_string_lossy().into_owned()),
        None => None,
    }
}

/// The label of a font file in the font list: its file name, or the whole
/// path when it has none.
pub open spec fn spec_font_file_name(path: Seq<char>) -> Seq<char> {
    match path_file_name(path) {
        Some(n) => n,
        None => path,
    }
}

/// The label of a font file in the font list.
pub fn font_file_name(path: &str) -> (label: String)
    ensures
        label@ == spec_font_file_name(path@),
{
    match file_name_of(path) {
        Some(n) => n,
        None => path.to_owned(),
    }
}

/// The entry of the font list that shows `font`, the font index of the
/// selected text: the index itself, or the last entry when it is past the
/// end (0 when the list is empty).
pub open spec fn spec_font_index(font: u8, font_count: usize) -> usize {
    let last: usize = if font_count == 0 {
        0
    } else {
        (font_count - 1) as usize
    };
    if (font as usize) < last {
        font as usize
    } else {
        last
    }
}

/// The entry of the font list that shows `font` among `font_count` fonts.
pub fn font_index(font: u8, font_count: usize) -> (i: usize)
    ensures
        i == spec_font_index(font, font_count),
{
    let last = font_count.saturating_sub(1);
    let f = font as usize;
    if f < last {
        f
    } else {
        last
    }
}

/// The labels of the font list: the file name of each font file.
pub fn font_labels(fonts: &Vec<String>) -> (labels: Vec<String>)
    ensures
        labels@.len() == fonts@.len(),
        forall|i: int| 0 <= i < fonts@.len() ==> #[trigger] labels@[i]@ == spec_font_file_name(fonts@[i]@),
{
    let mut labels: Vec<String> = Vec::new();
    let mut i: usize = 0;
    while i < fonts.len()
        invariant
            i <= fonts.len(),
            labels@.len() == i,
            forall|j: int| 0 <= j < i ==> #[trigger] labels@[j]@ == spec_font_file_name(fonts@[j]@),
        decreases fonts.len() - i,
    {
        labels.push(font_file_name(fonts[i].as_str()));
        i = i + 1;
    }
    labels
}

/// Whether the file dialog picks a file to read or a name to write.
#[derive(Clone, Copy, Debug, PartialEq, Eq, Structural)]
pub enum FileDialogMode {
    Open,
    Save,
}

/// How the file dialog for `kind` is set up: its mode and the file
/// extensions it lists.
pub open spec fn spec_dialog_setup(kind: DialogKind) -> (FileDialogMode, Seq<char>) {
    match kind {
        DialogKind::OpenDoc => (FileDialogMode::Open, ".toml"@),
        DialogKind::SaveDoc => (FileDialogMode::Save, ".toml"@),
        DialogKind::OpenFont => (FileDialogMode::Open, ".ttf,.otf"@),
        DialogKind::OpenImage { .. } => (FileDialogMode::Open, ".png,.jpg,.jpeg,.gif,.bmp,.webp"@),
    }
}

/// The mode and the extension filter of the file dialog for `kind`.
pub fn dialog_setup(kind: DialogKind) -> (r: (FileDialogMode, String))
    ensures
        r.0 == spec_dialog_setup(kind).0,
        r.1@ == spec_dialog_setup(kind).1,
{
    match kind {
        DialogKind::OpenDoc => (FileDialogMode::Open, ".toml".to_owned()),
        DialogKind::SaveDoc => (FileDialogMode::Save, ".toml".to_owned()),
        DialogKind::OpenFont => (FileDialogMode::Open, ".ttf,.otf".to_owned()),
        DialogKind::OpenImage { .. } => (
            FileDialogMode::Open,
            ".png,.jpg,.jpeg,.gif,.bmp,.webp".to_owned(),
        ),
    }
}

/// The name that the save dialog proposes when the document has no file yet.
pub open spec fn untitled_name() -> Seq<char> {
    "untitled.toml"@
}

/// The control state of the editor, as text and numbers.
pub struct EditorUi {
    pub size_index: usize,
    pub size_open: bool,
    pub font_open: bool,
    pub menu_open: Option<usize>,
    pub file_path: Option<Seq<char>>,
    pub dialog: Option<DialogKind>,
    pub dialog_dir: Seq<char>,
    pub dialog_selected: Option<usize>,
    pub dialog_filename: Seq<char>,
}

/// At most one popup (a menu of the menu bar, the size list, the font list)
/// is open.
pub open spec fn one_popup(u: EditorUi) -> bool {
    &&& !(u.menu_open is Some && u.size_open)
    &&& !(u.menu_open is Some && u.font_open)
    &&& !(u.size_open && u.font_open)
}

/// `u` with the menu bar closed.
pub open spec fn close_menu(u: EditorUi) -> EditorUi {
    EditorUi { menu_open: None, ..u }
}

/// The directory that the file dialog opens in: that of the current file
/// when it has a non-empty one, else `default_dir`.
pub open spec fn dialog_dir_for(file_path: Option<Seq<char>>, default_dir: Seq<char>) -> Seq<char> {
    match file_path {
        Some(p) => match path_parent(p) {
            Some(d) => if d.len() > 0 {
                d
            } else {
                default_dir
            },
            None => default_dir,
        },
        None => default_dir,
    }
}

/// The file name that the file dialog starts with: for saving, that of the
/// current file or `untitled.toml`; else none.
pub open spec fn dialog_filename_for(kind: DialogKind, file_path: Option<Seq<char>>) -> Seq<char> {
    if kind == DialogKind::SaveDoc {
        match file_path {
            Some(p) => match path_file_name(p) {
                Some(n) => n,
                None => untitled_name(),
            },
            None => untitled_name(),
        }
    } else {
        Seq::empty()
    }
}

/// The control state after the file dialog opens for `kind`: every popup
/// closes and nothing is selected.
pub open spec fn ui_open_dialog(u: EditorUi, kind: DialogKind, default_dir: Seq<char>) -> EditorUi {
    EditorUi {
        dialog: Some(kind),
        dialog_dir: dialog_dir_for(u.file_path, default_dir),
        dialog_selected: None,
        dialog_filename: dialog_filename_for(kind, u.file_path),
        menu_open: None,
        size_open: false,
        font_open: false,
        ..u
    }
}

/// The control state after the file dialog closes.
pub open spec fn ui_close_dialog(u: EditorUi) -> EditorUi {
    EditorUi { dialog: None, dialog_selected: None, ..u }
}

/// The control state after a message.
pub open spec fn ui_after<D, C, S>(u: EditorUi, msg: Msg<D, C, S>, default_dir: Seq<char>) -> EditorUi {
    match msg {
        Msg::ToggleBold => close_menu(u),
        Msg::ToggleItalic => close_menu(u),
        Msg::ToggleUnderline => close_menu(u),
        Msg::SetSize(i) => EditorUi { size_index: i, size_open: false, menu_open: None, ..u },
        Msg::SizeMenu(open) => if open {
            EditorUi { size_open: true, font_open: false, menu_open: None, ..u }
        } else {
            EditorUi { size_open: false, ..u }
        },
        Msg::SetFont(_) => EditorUi { font_open: false, menu_open: None, ..u },
        Msg::FontMenu(open) => if open {
            EditorUi { font_open: true, size_open: false, menu_open: None, ..u }
        } else {
            EditorUi { font_open: false, ..u }
        },
        Msg::SetColor(_) => close_menu(u),
        Msg::SetAlign(_) => close_menu(u),
        Msg::Open => ui_open_dialog(u, DialogKind::OpenDoc, default_dir),
        Msg::Save => if u.file_path is Some {
            close_menu(u)
        } else {
            ui_open_dialog(u, DialogKind::SaveDoc, default_dir)
        },
        Msg::SaveAs => ui_open_dialog(u, DialogKind::SaveDoc, default_dir),
        Msg::Undo => close_menu(u),
        Msg::Redo => close_menu(u),
        Msg::Cut => close_menu(u),
        Msg::Copy => close_menu(u),
        Msg::Paste => close_menu(u),
        Msg::SelectAll => close_menu(u),
        Msg::AddFont => ui_open_dialog(u, DialogKind::OpenFont, default_dir),
        Msg::InsertImage { display, embed } => ui_open_dialog(
            u,
            DialogKind::OpenImage { display, embed },
            default_dir,
        ),
        Msg::MenuToggle(open) => if open is Some {
            EditorUi { menu_open: open, size_open: false, font_open: false, ..u }
        } else {
            EditorUi { menu_open: open, ..u }
        },
        Msg::DialogDir(dir) => EditorUi { dialog_dir: dir@, dialog_selected: None, ..u },
        Msg::DialogSelect(sel) => EditorUi { dialog_selected: sel, ..u },
        Msg::DialogFilename(name) => EditorUi { dialog_filename: name@, ..u },
        Msg::DialogConfirm(_) => ui_close_dialog(u),
        Msg::DialogCancel => ui_close_dialog(u),
        _ => u,
    }
}

/// Whether `cmd` is what the caller has to do after `msg`, given the control
/// state before it, the font size list, the fonts of the document and how
/// many states undo and redo can bring back.
pub open spec fn command_is<D, C, S>(
    u: EditorUi,
    msg: Msg<D, C, S>,
    buckets: Seq<u32>,
    fonts: Seq<Seq<char>>,
    undo_len: nat,
    redo_len: nat,
    cmd: Command<D, C, S>,
) -> bool {
    match msg {
        Msg::ToggleBold => cmd == Command::<D, C, S>::EditSelection(StyleEdit::ToggleBold),
        Msg::ToggleItalic => cmd == Command::<D, C, S>::EditSelection(StyleEdit::ToggleItalic),
        Msg::ToggleUnderline => cmd == Command::<D, C, S>::EditSelection(StyleEdit::ToggleUnderline),
        Msg::SetSize(i) => if i < buckets.len() {
            cmd == Command::<D, C, S>::EditSelection(StyleEdit::Size(buckets[i as int]))
        } else {
            cmd == Command::<D, C, S>::Nothing
        },
        Msg::SetFont(i) => if i < fonts.len() {
            cmd == Command::<D, C, S>::EditSelection(StyleEdit::Font(i as u8))
        } else {
            cmd == Command::<D, C, S>::Nothing
        },
        Msg::SetColor(c) => cmd == Command::<D, C, S>::EditSelection(StyleEdit::Color(c)),
        Msg::SetAlign(a) => cmd == Command::<D, C, S>::EditSelection(StyleEdit::Align(a)),
        Msg::Doc(d) => cmd == Command::<D, C, S>::ReplaceDoc(d),
        Msg::Scroll(v) => cmd == Command::<D, C, S>::ScrollDoc(v),
        Msg::New => cmd == Command::<D, C, S>::NewDoc,
        Msg::Open => cmd == Command::<D, C, S>::DialogOpened,
        Msg::Save => match u.file_path {
            Some(p) => (cmd matches Command::WriteDoc(q) && q@ == p),
            None => cmd == Command::<D, C, S>::DialogOpened,
        },
        Msg::SaveAs => cmd == Command::<D, C, S>::DialogOpened,
        Msg::Undo => cmd == if undo_len > 0 {
            Command::<D, C, S>::Restored
        } else {
            Command::<D, C, S>::Nothing
        },
        Msg::Redo => cmd == if redo_len > 0 {
            Command::<D, C, S>::Restored
        } else {
            Command::<D, C, S>::Nothing
        },
        Msg::Cut => cmd == Command::<D, C, S>::Cut,
        Msg::Copy => cmd == Command::<D, C, S>::Copy,
        Msg::Paste => cmd == Command::<D, C, S>::Paste,
        Msg::SelectAll => cmd == Command::<D, C, S>::SelectAll,
        Msg::AddFont => cmd == Command::<D, C, S>::DialogOpened,
        Msg::InsertImage { .. } => cmd == Command::<D, C, S>::DialogOpened,
        Msg::DialogDir(_) => cmd == Command::<D, C, S>::ResetDialogScroll,
        Msg::DialogSelect(sel) => if u.dialog == Some(DialogKind::SaveDoc) && sel is Some {
            cmd == Command::<D, C, S>::LookupFileName(sel.unwrap())
        } else {
            cmd == Command::<D, C, S>::Nothing
        },
        Msg::DialogScroll(v) => cmd == Command::<D, C, S>::ScrollDialog(v),
        Msg::DialogConfirm(path) => match u.dialog {
            Some(DialogKind::OpenDoc) => cmd == Command::<D, C, S>::ReadDoc(path),
            Some(DialogKind::SaveDoc) => cmd == Command::<D, C, S>::WriteDoc(path),
            Some(DialogKind::OpenFont) => if fonts.contains(path@) {
                cmd == Command::<D, C, S>::Nothing
            } else {
                cmd == Command::<D, C, S>::AddFont(path)
            },
            Some(DialogKind::OpenImage { display, embed }) => cmd
                == Command::<D, C, S>::InsertImage { path, display, embed },
            None => cmd == Command::<D, C, S>::Nothing,
        },
        _ => cmd == Command::<D, C, S>::Nothing,
    }
}

/// The text of each string.
pub open spec fn strings_view(v: Seq<String>) -> Seq<Seq<char>> {
    v.map_values(|s: String| s@)
}

/// The position of `bucket` in `buckets`, if it is there.
pub open spec fn bucket_position(buckets: Seq<u32>, bucket: u32) -> Option<usize> {
    if exists|i: int| 0 <= i < buckets.len() && buckets[i] == bucket {
        Some(
            (choose|i: int|
                0 <= i < buckets.len() && buckets[i] == bucket && forall|j: int|
                    0 <= j < i ==> buckets[j] != bucket) as usize,
        )
    } else {
        None
    }
}

/// The editor: the document, its history and the control state.
pub struct Editor<D> {
    doc: D,
    history: History<D>,
    size_buckets: Vec<u32>,
    size_index: usize,
    size_open: bool,
    font_open: bool,
    menu_open: Option<usize>,
    file_path: Option<String>,
    dialog: Option<DialogKind>,
    dialog_dir: String,
    dialog_selected: Option<usize>,
    dialog_filename: String,
}

impl<D> Editor<D> {
    /// The control state.
    pub closed spec fn ui(&self) -> EditorUi {
        EditorUi {
            size_index: self.size_index,
            size_open: self.size_open,
            font_open: self.font_open,
            menu_open: self.menu_open,
            file_path: opt_view(self.file_path),
            dialog: self.dialog,
            dialog_dir: self.dialog_dir@,
            dialog_selected: self.dialog_selected,
            dialog_filename: self.dialog_filename@,
        }
    }

    /// States that undo brings back, oldest first.
    pub closed spec fn undo_stack(&self) -> Seq<D> {
        self.history.undo_stack()
    }

    /// States that redo brings back, oldest first.
    pub closed spec fn redo_stack(&self) -> Seq<D> {
        self.history.redo_stack()
    }

    /// The font sizes that the size list offers.
    pub closed spec fn buckets(&self) -> Seq<u32> {
        self.size_buckets@
    }

    /// The document.
    pub closed spec fn document(&self) -> D {
        self.doc
    }

    /// Undo, redo and the document.
    pub open spec fn timeline(&self) -> (Seq<D>, Seq<D>, D) {
        (self.undo_stack(), self.redo_stack(), self.document())
    }

    /// The history is bounded and at most one popup is open.
    pub open spec fn wf(&self) -> bool {
        &&& self.undo_stack().len() <= HISTORY_LIMIT
        &&& self.redo_stack().len() <= HISTORY_LIMIT
        &&& one_popup(self.ui())
    }

    /// An editor for `doc` with an empty history, no popup, no file and no
    /// dialog. The size list offers `size_buckets`; the size index starts at
    /// the bucket 16, or at 2 when there is none. The dialog starts in
    /// `default_dir`.
    pub fn new(doc: D, size_buckets: Vec<u32>, default_dir: String) -> (e: Self)
        ensures
            e.wf(),
            e.document() == doc,
            e.undo_stack() == Seq::<D>::empty(),
            e.redo_stack() == Seq::<D>::empty(),
            e.buckets() == size_buckets@,
            e.ui().size_index == match bucket_position(size_buckets@, 16) {
                Some(i) => i,
                None => 2,
            },
            !e.ui().size_open,
            !e.ui().font_open,
            e.ui().menu_open is None,
            e.ui().file_path is None,
            e.ui().dialog is None,
            e.ui().dialog_dir == default_dir@,
            e.ui().dialog_selected is None,
            e.ui().dialog_filename == Seq::<char>::empty(),
    {
        let size_index = match position_of(&size_buckets, 16) {
            Some(i) => i,
            None => 2,
        };
        Editor {
            doc,
            history: History::new(),
            size_buckets,
            size_index,
            size_open: false,
            font_open: false,
            menu_open: None,
            file_path: None,
            dialog: None,
            dialog_dir: default_dir,
            dialog_selected: None,
            dialog_filename: String::new(),
        }
    }

    /// Number of states that undo can bring back.
    pub fn undo_len(&self) -> (n: usize)
        ensures
            n == self.undo_stack().len(),
    {
        self.history.undo_len()
    }

    /// Number of states that redo can bring back.
    pub fn redo_len(&self) -> (n: usize)
        ensures
            n == self.redo_stack().len(),
    {
        self.history.redo_len()
    }

    /// The document.
    pub fn doc(&self) -> (d: &D)
        ensures
            *d == self.document(),
    {
        &self.doc
    }

    /// The document, for a change that is not recorded for undo (focus,
    /// selection, scroll position). Nothing else changes.
    pub fn doc_mut(&mut self) -> (d: &mut D)
        ensures
            *d == old(self).document(),
            final(self).document() == *final(d),
            final(self).ui() == old(self).ui(),
            final(self).undo_stack() == old(self).undo_stack(),
            final(self).redo_stack() == old(self).redo_stack(),
            final(self).buckets() == old(self).buckets(),
    {
        &mut self.doc
    }

    /// The index of the selected entry of the size list.
    pub fn size_index(&self) -> (i: usize)
        ensures
            i == self.ui().size_index,
    {
        self.size_index
    }

    /// Whether the size list is open.
    pub fn size_open(&self) -> (b: bool)
        ensures
            b == self.ui().size_open,
    {
        self.size_open
    }

    /// Whether the font list is open.
    pub fn font_open(&self) -> (b: bool)
        ensures
            b == self.ui().font_open,
    {
        self.font_open
    }

    /// The open menu of the menu bar, if any.
    pub fn menu_open(&self) -> (m: Option<usize>)
        ensures
            m == self.ui().menu_open,
    {
        self.menu_open
    }

    /// The file of the document, if it has one.
    pub fn file_path(&self) -> (p: Option<&String>)
        ensures
            match p {
                Some(q) => self.ui().file_path == Some(q@),
                None => self.ui().file_path is None,
            },
    {
        match &self.file_path {
            Some(q) => Some(q),
            None => None,
        }
    }

    /// The kind of the open file dialog, if one is open.
    pub fn dialog(&self) -> (k: Option<DialogKind>)
        ensures
            k == self.ui().dialog,
    {
        self.dialog
    }

    /// The directory that the file dialog shows.
    pub fn dialog_dir(&self) -> (d: &String)
        ensures
            d@ == self.ui().dialog_dir,
    {
        &self.dialog_dir
    }

    /// The selected entry of the file dialog, if any.
    pub fn dialog_selected(&self) -> (s: Option<usize>)
        ensures
            s == self.ui().dialog_selected,
    {
        self.dialog_selected
    }

    /// The file name in the file dialog.
    pub fn dialog_filename(&self) -> (n: &String)
        ensures
            n@ == self.ui().dialog_filename,
    {
        &self.dialog_filename
    }

    /// The font size at the current size index, if the index is in the list.
    pub fn size_bucket(&self) -> (b: Option<u32>)
        ensures
            b == if self.ui().size_index < self.buckets().len() {
                Some(self.buckets()[self.ui().size_index as int])
            } else {
                None::<u32>
            },
    {
        if self.size_index < self.size_buckets.len() {
            Some(self.size_buckets[self.size_index])
        } else {
            None
        }
    }

    /// Opens the file dialog for `kind`: it starts in the directory of the
    /// current file (or `default_dir`), with nothing selected, with the name
    /// of the current file (or `untitled.toml`) when saving, and every popup
    /// closes. The caller then takes the focus from the document and
    /// scrolls the dialog to the top.
    pub fn open_dialog(&mut self, kind: DialogKind, default_dir: &str)
        ensures
            final(self).ui() == ui_open_dialog(old(self).ui(), kind, default_dir@),
            final(self).timeline() == old(self).timeline(),
            final(self).buckets() == old(self).buckets(),
    {
        self.dialog = Some(kind);
        let dir = match &self.file_path {
            Some(p) => match parent_of(p.as_str()) {
                Some(d) => if !d.as_str().is_empty() {
                    d
                } else {
                    default_dir.to_owned()
                },
                None => default_dir.to_owned(),
            },
            None => default_dir.to_owned(),
        };
        self.dialog_dir = dir;
        self.dialog_selected = None;
        self.dialog_filename = match kind {
            DialogKind::SaveDoc => match &self.file_path {
                Some(p) => match file_name_of(p.as_str()) {
                    Some(n) => n,
                    None => "untitled.toml".to_owned(),
                },
                None => "untitled.toml".to_owned(),
            },
            _ => String::new(),
        };
        self.menu_open = None;
        self.size_open = false;
        self.font_open = false;
    }

    /// Closes the file dialog.
    pub fn close_dialog(&mut self)
        ensures
            final(self).ui() == ui_close_dialog(old(self).ui()),
            final(self).timeline() == old(self).timeline(),
            final(self).buckets() == old(self).buckets(),
    {
        self.dialog = None;
        self.dialog_selected = None;
    }

    /// Puts `next` in place of the document. When `changed` (the two differ
    /// in content) the replaced document is recorded for undo. The size index
    /// then follows `bucket`, the font size of `next` rounded to the size
    /// list. The caller then shows the scroll position of `next`.
    pub fn replace_doc(&mut self, next: D, changed: bool, bucket: u32)
        requires
            old(self).wf(),
        ensures
            final(self).wf(),
            final(self).document() == next,
            changed ==> (final(self).undo_stack(), final(self).redo_stack()) == record_step(
                old(self).undo_stack(),
                old(self).document(),
            ),
            !changed ==> final(self).undo_stack() == old(self).undo_stack()
                && final(self).redo_stack() == old(self).redo_stack(),
            final(self).ui().size_index == match bucket_position(old(self).buckets(), bucket) {
                Some(i) => i,
                None => old(self).ui().size_index,
            },
            final(self).ui() == (EditorUi { size_index: final(self).ui().size_index, ..old(self).ui() }),
            final(self).buckets() == old(self).buckets(),
    {
        let mut before = next;
        std::mem::swap(&mut self.doc, &mut before);
        if changed {
            self.history.push_undo(before);
        }
        self.sync_size_index(bucket);
    }

    /// Takes `next`, an edited copy of the document, in place of it. When
    /// `changed` (the edit changed the content) the document before the edit
    /// is recorded for undo and the redo stack is emptied. The size index
    /// then follows `bucket`, the font size of `next` rounded to the size list.
    pub fn mutate_doc(&mut self, next: D, changed: bool, bucket: u32)
        requires
            old(self).wf(),
        ensures
            final(self).wf(),
            final(self).document() == next,
            changed ==> (final(self).undo_stack(), final(self).redo_stack()) == record_step(
                old(self).undo_stack(),
                old(self).document(),
            ),
            !changed ==> final(self).undo_stack() == old(self).undo_stack()
                && final(self).redo_stack() == old(self).redo_stack(),
            final(self).ui().size_index == match bucket_position(old(self).buckets(), bucket) {
                Some(i) => i,
                None => old(self).ui().size_index,
            },
            final(self).ui() == (EditorUi { size_index: final(self).ui().size_index, ..old(self).ui() }),
            final(self).buckets() == old(self).buckets(),
    {
        self.replace_doc(next, changed, bucket);
    }

    /// Starts a new document: `next` replaces the document as in
    /// [`Editor::replace_doc`], the document has no file any more, the size
    /// index goes to 2 and the menu bar closes.
    pub fn new_document(&mut self, next: D, changed: bool, bucket: u32)
        requires
            old(self).wf(),
        ensures
            final(self).wf(),
            final(self).document() == next,
            changed ==> (final(self).undo_stack(), final(self).redo_stack()) == record_step(
                old(self).undo_stack(),
                old(self).document(),
            ),
            !changed ==> final(self).undo_stack() == old(self).undo_stack()
                && final(self).redo_stack() == old(self).redo_stack(),
            final(self).ui() == (EditorUi {
                size_index: 2,
                file_path: None,
                menu_open: None,
                ..old(self).ui()
            }),
            final(self).buckets() == old(self).buckets(),
    {
        self.replace_doc(next, changed, bucket);
        self.file_path = None;
        self.size_index = 2;
        self.menu_open = None;
    }

    /// A document was read from `path`: it replaces the document as in
    /// [`Editor::replace_doc`] and `path` becomes the current file.
    pub fn opened(&mut self, next: D, changed: bool, bucket: u32, path: String)
        requires
            old(self).wf(),
        ensures
            final(self).wf(),
            final(self).document() == next,
            changed ==> (final(self).undo_stack(), final(self).redo_stack()) == record_step(
                old(self).undo_stack(),
                old(self).document(),
            ),
            !changed ==> final(self).undo_stack() == old(self).undo_stack()
                && final(self).redo_stack() == old(self).redo_stack(),
            final(self).ui().size_index == match bucket_position(old(self).buckets(), bucket) {
                Some(i) => i,
                None => old(self).ui().size_index,
            },
            final(self).ui() == (EditorUi {
                size_index: final(self).ui().size_index,
                file_path: Some(path@),
                ..old(self).ui()
            }),
            final(self).buckets() == old(self).buckets(),
    {
        self.replace_doc(next, changed, bucket);
        self.file_path = Some(path);
    }

    /// The document was written to `path`, which becomes the current file.
    pub fn saved(&mut self, path: String)
        ensures
            final(self).ui() == (EditorUi { file_path: Some(path@), ..old(self).ui() }),
            final(self).timeline() == old(self).timeline(),
            final(self).buckets() == old(self).buckets(),
    {
        self.file_path = Some(path);
    }

    /// The save dialog proposes `name`.
    pub fn set_dialog_filename(&mut self, name: String)
        ensures
            final(self).ui() == (EditorUi { dialog_filename: name@, ..old(self).ui() }),
            final(self).timeline() == old(self).timeline(),
            final(self).buckets() == old(self).buckets(),
    {
        self.dialog_filename = name;
    }

    /// Handles a message: updates the control state and the history as
    /// `ui_after`, `undo_step` and `redo_step` say, and returns what the
    /// caller has to do next as `command_is` says. `fonts` are the font
    /// files of the document; `default_dir` is where the file dialog opens
    /// when the document has no file.
    pub fn update<C, S>(&mut self, msg: Msg<D, C, S>, fonts: &Vec<String>, default_dir: &str) -> (cmd:
        Command<D, C, S>)
        requires
            old(self).wf(),
        ensures
            final(self).wf(),
            final(self).ui() == ui_after(old(self).ui(), msg, default_dir@),
            msg is Undo ==> final(self).timeline() == undo_step(old(self).timeline()),
            msg is Redo ==> final(self).timeline() == redo_step(old(self).timeline()),
            !(msg is Undo) && !(msg is Redo) ==> final(self).timeline() == old(self).timeline(),
            final(self).buckets() == old(self).buckets(),
            command_is(
                old(self).ui(),
                msg,
                old(self).buckets(),
                strings_view(fonts@),
                old(self).undo_stack().len(),
                old(self).redo_stack().len(),
                cmd,
            ),            style_law(msg, cmd),
            dialog_law(old(self).ui(), msg, final(self).ui(), cmd),
            choice_law(msg, old(self).buckets(), fonts@.len(), cmd),
            clipboard_law(msg, cmd),
            msg is Undo ==> (cmd == if old(self).undo_stack().len() > 0 {
                Command::<D, C, S>::Restored
            } else {
                Command::<D, C, S>::Nothing
            }),
            msg is Redo ==> (cmd == if old(self).redo_stack().len() > 0 {
                Command::<D, C, S>::Restored
            } else {
                Command::<D, C, S>::Nothing
            }),
    {
        match msg {
            Msg::ToggleBold => {
                self.menu_open = None;
                Command::EditSelection(StyleEdit::ToggleBold)
            },
            Msg::ToggleItalic => {
                self.menu_open = None;
                Command::EditSelection(StyleEdit::ToggleItalic)
            },
            Msg::ToggleUnderline => {
                self.menu_open = None;
                Command::EditSelection(StyleEdit::ToggleUnderline)
            },
            Msg::SetSize(index) => {
                self.size_index = index;
                self.size_open = false;
                self.menu_open = None;
                if index < self.size_buckets.len() {
                    Command::EditSelection(StyleEdit::Size(self.size_buckets[index]))
                } else {
                    Command::Nothing
                }
            },
            Msg::SizeMenu(open) => {
                self.size_open = open;
                if open {
                    self.font_open = false;
                    self.menu_open = None;
                }
                Command::Nothing
            },
            Msg::SetFont(index) => {
                self.font_open = false;
                self.menu_open = None;
                if index < fonts.len() {
                    Command::EditSelection(StyleEdit::Font(index as u8))
                } else {
                    Command::Nothing
                }
            },
            Msg::FontMenu(open) => {
                self.font_open = open;
                if open {
                    self.size_open = false;
                    self.menu_open = None;
                }
                Command::Nothing
            },
            Msg::SetColor(color) => {
                self.menu_open = None;
                Command::EditSelection(StyleEdit::Color(color))
            },
            Msg::SetAlign(align) => {
                self.menu_open = None;
                Command::EditSelection(StyleEdit::Align(align))
            },
            Msg::Doc(doc) => Command::ReplaceDoc(doc),
            Msg::Scroll(v) => Command::ScrollDoc(v),
            Msg::New => Command::NewDoc,
            Msg::Open => {
                self.open_dialog(DialogKind::OpenDoc, default_dir);
                Command::DialogOpened
            },
            Msg::Save => {
                self.menu_open = None;
                match &self.file_path {
                    Some(path) => Command::WriteDoc(path.clone()),
                    None => {
                        self.open_dialog(DialogKind::SaveDoc, default_dir);
                        Command::DialogOpened
                    },
                }
            },
            Msg::SaveAs => {
                self.open_dialog(DialogKind::SaveDoc, default_dir);
                Command::DialogOpened
            },
            Msg::Undo => {
                let moved = self.history.undo(&mut self.doc);
                self.menu_open = None;
                if moved {
                    Command::Restored
                } else {
                    Command::Nothing
                }
            },
            Msg::Redo => {
                let moved = self.history.redo(&mut self.doc);
                self.menu_open = None;
                if moved {
                    Command::Restored
                } else {
                    Command::Nothing
                }
            },
            Msg::Cut => {
                self.menu_open = None;
                Command::Cut
            },
            Msg::Copy => {
                self.menu_open = None;
                Command::Copy
            },
            Msg::Paste => {
                self.menu_open = None;
                Command::Paste
            },
            Msg::SelectAll => {
                self.menu_open = None;
                Command::SelectAll
            },
            Msg::AddFont => {
                self.open_dialog(DialogKind::OpenFont, default_dir);
                Command::DialogOpened
            },
            Msg::InsertImage { display, embed } => {
                self.open_dialog(DialogKind::OpenImage { display, embed }, default_dir);
                Command::DialogOpened
            },
            Msg::MenuToggle(open) => {
                self.menu_open = open;
                if open.is_some() {
                    self.size_open = false;
                    self.font_open = false;
                }
                Command::Nothing
            },
            Msg::DialogDir(dir) => {
                self.dialog_dir = dir;
                self.dialog_selected = None;
                Command::ResetDialogScroll
            },
            Msg::DialogSelect(sel) => {
                self.dialog_selected = sel;
                match (self.dialog, sel) {
                    (Some(DialogKind::SaveDoc), Some(i)) => Command::LookupFileName(i),
                    _ => Command::Nothing,
                }
            },
            Msg::DialogFilename(name) => {
                self.dialog_filename = name;
                Command::Nothing
            },
            Msg::DialogScroll(v) => Command::ScrollDialog(v),
            Msg::DialogConfirm(path) => {
                let kind = self.dialog;
                self.close_dialog();
                match kind {
                    Some(DialogKind::OpenDoc) => Command::ReadDoc(path),
                    Some(DialogKind::SaveDoc) => Command::WriteDoc(path),
                    Some(DialogKind::OpenFont) => {
                        if contains_string(fonts, &path) {
                            Command::Nothing
                        } else {
                            Command::AddFont(path)
                        }
                    },
                    Some(DialogKind::OpenImage { display, embed }) => Command::InsertImage {
                        path,
                        display,
                        embed,
                    },
                    None => Command::Nothing,
                }
            },
            Msg::DialogCancel => {
                self.close_dialog();
                Command::Nothing
            },
        }
    }

    /// Moves the size index to `bucket`, the font size of the document
    /// rounded to the size list; it stays where it is when the size is not
    /// in the list.
    pub fn sync_size_index(&mut self, bucket: u32)
        ensures
            final(self).ui().size_index == match bucket_position(old(self).buckets(), bucket) {
                Some(i) => i,
                None => old(self).ui().size_index,
            },
            final(self).ui() == (EditorUi { size_index: final(self).ui().size_index, ..old(self).ui() }),
            final(self).timeline() == old(self).timeline(),
            final(self).buckets() == old(self).buckets(),
    {
        if let Some(pos) = position_of(&self.size_buckets, bucket) {
            self.size_index = pos;
        }
    }
}

/// Whether `v` holds a string equal to `s`.
fn contains_string(v: &Vec<String>, s: &String) -> (r: bool)
    ensures
        r == strings_view(v@).contains(s@),
{
    let mut i: usize = 0;
    while i < v.len()
        invariant
            i <= v.len(),
            forall|j: int| 0 <= j < i ==> v@[j]@ != s@,
        decreases v.len() - i,
    {
        if v[i] == *s {
            assert(strings_view(v@)[i as int] == s@);
            return true;
        }
        i = i + 1;
    }
    proof {
        if strings_view(v@).contains(s@) {
            let k = choose|k: int| 0 <= k < strings_view(v@).len() && strings_view(v@)[k] == s@;
            assert(v@[k]@ == s@);
        }
    }
    false
}

/// Each formatting message asks for the edit of its own attribute of the
/// selection: bold toggles bold, italic italic, underline underline, and a
/// colour or an alignment is applied as it was given.
pub open spec fn style_law<D, C, S>(msg: Msg<D, C, S>, cmd: Command<D, C, S>) -> bool {
    &&& msg is ToggleBold ==> cmd == Command::<D, C, S>::EditSelection(StyleEdit::ToggleBold)
    &&& msg is ToggleItalic ==> cmd == Command::<D, C, S>::EditSelection(StyleEdit::ToggleItalic)
    &&& msg is ToggleUnderline ==> cmd == Command::<D, C, S>::EditSelection(
        StyleEdit::ToggleUnderline,
    )
    &&& msg matches Msg::SetColor(c) ==> cmd == Command::<D, C, S>::EditSelection(StyleEdit::Color(c))
    &&& msg matches Msg::SetAlign(a) ==> cmd == Command::<D, C, S>::EditSelection(StyleEdit::Align(a))
}

/// Picking an entry of the size list asks for that size when the entry
/// exists, and picking a font asks for that font when the document has it;
/// otherwise nothing is edited.
pub open spec fn choice_law<D, C, S>(
    msg: Msg<D, C, S>,
    buckets: Seq<u32>,
    font_count: nat,
    cmd: Command<D, C, S>,
) -> bool {
    &&& msg matches Msg::SetSize(i) ==> (cmd == if i < buckets.len() {
        Command::<D, C, S>::EditSelection(StyleEdit::Size(buckets[i as int]))
    } else {
        Command::<D, C, S>::Nothing
    })
    &&& msg matches Msg::SetFont(i) ==> (cmd == if i < font_count {
        Command::<D, C, S>::EditSelection(StyleEdit::Font(i as u8))
    } else {
        Command::<D, C, S>::Nothing
    })
}

/// The clipboard and selection messages ask for what they name.
pub open spec fn clipboard_law<D, C, S>(msg: Msg<D, C, S>, cmd: Command<D, C, S>) -> bool {
    &&& msg is Cut ==> cmd == Command::<D, C, S>::Cut
    &&& msg is Copy ==> cmd == Command::<D, C, S>::Copy
    &&& msg is Paste ==> cmd == Command::<D, C, S>::Paste
    &&& msg is SelectAll ==> cmd == Command::<D, C, S>::SelectAll
}

/// The file dialog remembers what it was opened for, and confirming it asks
/// for exactly that, on the confirmed path: opening an image remembers its
/// display and whether to embed it, and confirming inserts the image at the
/// path with those same choices; confirming an open reads the path and
/// confirming a save writes it. `before` and `after` are the control states
/// around the message.
pub open spec fn dialog_law<D, C, S>(
    before: EditorUi,
    msg: Msg<D, C, S>,
    after: EditorUi,
    cmd: Command<D, C, S>,
) -> bool {
    &&& msg matches Msg::InsertImage { display, embed } ==> after.dialog == Some(
        DialogKind::OpenImage { display, embed },
    )
    &&& msg is Open ==> after.dialog == Some(DialogKind::OpenDoc)
    &&& msg is SaveAs ==> after.dialog == Some(DialogKind::SaveDoc)
    &&& msg is AddFont ==> after.dialog == Some(DialogKind::OpenFont)
    &&& msg matches Msg::DialogConfirm(path) ==> {
        &&& after.dialog is None
        &&& before.dialog matches Some(DialogKind::OpenImage { display, embed }) ==> cmd
            == Command::<D, C, S>::InsertImage { path, display, embed }
        &&& before.dialog == Some(DialogKind::OpenDoc) ==> cmd == Command::<D, C, S>::ReadDoc(path)
        &&& before.dialog == Some(DialogKind::SaveDoc) ==> cmd == Command::<D, C, S>::WriteDoc(path)
    }
}

/// The commands that [`command_is`] allows for a formatting, size, font or
/// clipboard message do what the message names.
pub proof fn lemma_style_messages_edit_their_attribute<D, C, S>(
    u: EditorUi,
    msg: Msg<D, C, S>,
    buckets: Seq<u32>,
    fonts: Seq<Seq<char>>,
    undo_len: nat,
    redo_len: nat,
    cmd: Command<D, C, S>,
)
    requires
        command_is(u, msg, buckets, fonts, undo_len, redo_len, cmd),
    ensures
        style_law(msg, cmd),
        choice_law(msg, buckets, fonts.len(), cmd),
        clipboard_law(msg, cmd),
{
}

/// Opening the image dialog and confirming it on `path` inserts the image at
/// `path` with the display and embedding chosen when it was opened; the same
/// round trip through the other dialogs reads, writes or adds the path.
pub proof fn lemma_dialog_round_trip<D, C, S>(
    u: EditorUi,
    opening: Msg<D, C, S>,
    path: String,
    default_dir: Seq<char>,
    buckets: Seq<u32>,
    fonts: Seq<Seq<char>>,
    undo_len: nat,
    redo_len: nat,
    cmd: Command<D, C, S>,
)
    requires
        command_is(
            ui_after(u, opening, default_dir),
            Msg::<D, C, S>::DialogConfirm(path),
            buckets,
            fonts,
            undo_len,
            redo_len,
            cmd,
        ),
    ensures
        opening matches Msg::InsertImage { display, embed } ==> (cmd
            == (Command::<D, C, S>::InsertImage { path, display, embed })),
        opening is Open ==> cmd == Command::<D, C, S>::ReadDoc(path),
        opening is SaveAs ==> cmd == Command::<D, C, S>::WriteDoc(path),
        opening is AddFont ==> (cmd == if fonts.contains(path@) {
            Command::<D, C, S>::Nothing
        } else {
            Command::<D, C, S>::AddFont(path)
        }),
        (ui_after(ui_after(u, opening, default_dir), Msg::<D, C, S>::DialogConfirm(path), default_dir).dialog
            is None),
{
}

/// Every message keeps at most one popup open.
pub proof fn lemma_update_keeps_one_popup<D, C, S>(u: EditorUi, msg: Msg<D, C, S>, default_dir: Seq<char>)
    requires
        one_popup(u),
    ensures
        one_popup(ui_after(u, msg, default_dir)),
{
}

/// Confirming or cancelling the file dialog closes it.
pub proof fn lemma_dialog_closes<D, C, S>(u: EditorUi, msg: Msg<D, C, S>, default_dir: Seq<char>)
    requires
        msg is DialogConfirm || msg is DialogCancel,
    ensures
        ui_after(u, msg, default_dir).dialog is None,
        ui_after(u, msg, default_dir).dialog_selected is None,
{
}

/// Confirming the font dialog never puts a font in the list twice: the
/// editor asks for the font to be added only when it is not among the fonts
/// of the document, so a list without duplicates stays without duplicates.
pub proof fn lemma_add_font_keeps_fonts_distinct<D, C, S>(
    u: EditorUi,
    path: String,
    buckets: Seq<u32>,
    fonts: Seq<Seq<char>>,
    undo_len: nat,
    redo_len: nat,
    cmd: Command<D, C, S>,
)
    requires
        u.dialog == Some(DialogKind::OpenFont),
        fonts.no_duplicates(),
        command_is(u, Msg::<D, C, S>::DialogConfirm(path), buckets, fonts, undo_len, redo_len, cmd),
    ensures
        cmd is AddFont || cmd is Nothing,
        cmd is Nothing <==> fonts.contains(path@),
        cmd is AddFont ==> fonts.push(path@).no_duplicates(),
{
    if cmd is AddFont {
        let f = fonts.push(path@);
        assert forall|i: int, j: int| 0 <= i < f.len() && 0 <= j < f.len() && i != j implies f[i]
            != f[j] by {
            if i == fonts.len() as int {
                assert(f[j] == fonts[j]);
            } else if j == fonts.len() as int {
                assert(f[i] == fonts[i]);
            }
        }
    }
}

/// Opening the file dialog closes every popup and selects nothing.
pub proof fn lemma_open_dialog_closes_popups(u: EditorUi, kind: DialogKind, default_dir: Seq<char>)
    ensures
        ui_open_dialog(u, kind, default_dir).dialog == Some(kind),
        ui_open_dialog(u, kind, default_dir).menu_open is None,
        !ui_open_dialog(u, kind, default_dir).size_open,
        !ui_open_dialog(u, kind, default_dir).font_open,
        ui_open_dialog(u, kind, default_dir).dialog_selected is None,
{
}

/// The first position of `x` in `v`.
fn position_of(v: &Vec<u32>, x: u32) -> (r: Option<usize>)
    ensures
        r == bucket_position(v@, x),
{
    let mut i: usize = 0;
    while i < v.len()
        invariant
            i <= v.len(),
            forall|j: int| 0 <= j < i ==> v@[j] != x,
        decreases v.len() - i,
    {
        if v[i] == x {
            assert(v@[i as int] == x);
            let ghost w = choose|k: int|
                0 <= k < v@.len() && v@[k] == x && forall|j: int| 0 <= j < k ==> v@[j] != x;
            proof {
                assert(0 <= i < v@.len() && v@[i as int] == x && forall|j: int|
                    0 <= j < i ==> v@[j] != x);
                if w < i {
                    assert(v@[w] != x);
                } else if w > i {
                    assert(v@[i as int] != x);
                }
            }
            return Some(i);
        }
        i = i + 1;
    }
    None
}

} // verus!
