//! The states of the file panel's dialogs and the decisions taken on them.

use vstd::prelude::*;

use crate::names::{sort_names, sorted_by_bytes};

verus! {

/// State of the dialog that confirms deleting a file.
pub struct DeleteDialogState {
    pub is_open: bool,
    pub file_path: String,
    pub file_name: String,
}

impl Default for DeleteDialogState {
    fn default() -> (r: Self)
        ensures
            !r.is_open,
            r.file_path@ == Seq::<char>::empty(),
            r.file_name@ == Seq::<char>::empty(),
    {
        DeleteDialogState { is_open: false, file_path: String::new(), file_name: String::new() }
    }
}

impl DeleteDialogState {
    /// Opens the dialog for the file at `path`, shown as `name`.
    pub fn open(&mut self, path: String, name: String)
        ensures
            final(self).is_open,
            final(self).file_path == path,
            final(self).file_name == name,
    {
        self.is_open = true;
        self.file_path = path;
        self.file_name = name;
    }

    /// Closes the dialog.
    pub fn close(&mut self)
        ensures
            !final(self).is_open,
            final(self).file_path == old(self).file_path,
            final(self).file_name == old(self).file_name,
    {
        self.is_open = false;
    }
}

/// State of the dialog that confirms deleting a directory and everything in it.
pub struct DeleteDirectoryDialogState {
    pub is_open: bool,
    pub dir_path: String,
    pub dir_name: String,
    /// The files under the directory, as paths relative to it, in byte order.
    pub contained_files: Vec<String>,
}

impl Default for DeleteDirectoryDialogState {
    fn default() -> (r: Self)
        ensures
            !r.is_open,
            r.dir_path@ == Seq::<char>::empty(),
            r.dir_name@ == Seq::<char>::empty(),
            r.contained_files@ == Seq::<String>::empty(),
    {
        DeleteDirectoryDialogState {
            is_open: false,
            dir_path: String::new(),
            dir_name: String::new(),
            contained_files: Vec::new(),
        }
    }
}

impl DeleteDirectoryDialogState {
    /// Opens the dialog for the directory at `path`, shown as `name`, listing `files` (the
    /// paths found under it) in byte order.
    pub fn open(&mut self, path: String, name: String, files: Vec<String>)
        ensures
            final(self).is_open,
            final(self).dir_path == path,
            final(self).dir_name == name,
            final(self).contained_files@.to_multiset() == files@.to_multiset(),
            sorted_by_bytes(final(self).contained_files@),
    {
        self.is_open = true;
        self.dir_path = path;
        self.dir_name = name;
        self.contained_files = sort_names(files);
    }

    /// Closes the dialog and forgets the listing.
    pub fn close(&mut self)
        ensures
            !final(self).is_open,
            final(self).contained_files@ == Seq::<String>::empty(),
            final(self).dir_path == old(self).dir_path,
            final(self).dir_name == old(self).dir_name,
    {
        self.is_open = false;
        self.contained_files.clear();
    }
}

/// What to do once the user has dealt with unsaved changes.
pub enum UnsavedAction {
    /// Load the file at the given path.
    LoadFile(String),
    /// Leave the editor.
    Exit,
}

/// Dialog that asks what to do with unsaved changes.
pub struct UnsavedChangesDialog {
    pub is_open: bool,
    pub pending_action: Option<UnsavedAction>,
}

impl Default for UnsavedChangesDialog {
    fn default() -> (r: Self)
        ensures
            !r.is_open,
            r.pending_action is None,
    {
        UnsavedChangesDialog { is_open: false, pending_action: None }
    }
}

impl UnsavedChangesDialog {
    /// Opens the dialog, holding `action` until the user decides.
    pub fn open(&mut self, action: UnsavedAction)
        ensures
            final(self).is_open,
            final(self).pending_action == Some(action),
    {
        self.is_open = true;
        self.pending_action = Some(action);
    }

    /// Closes the dialog and drops the pending action.
    pub fn close(&mut self)
        ensures
            !final(self).is_open,
            final(self).pending_action is None,
    {
        self.is_open = false;
        self.pending_action = None;
    }
}

/// Dialog for creating a new folder.
pub struct NewFolderDialog {
    pub is_open: bool,
    pub parent_path: String,
    pub folder_name: String,
    /// Error message to show in the dialog.
    pub error_message: Option<String>,
}

impl Default for NewFolderDialog {
    fn default() -> (r: Self)
        ensures
            !r.is_open,
            r.parent_path@ == Seq::<char>::empty(),
            r.folder_name@ == Seq::<char>::empty(),
            r.error_message is None,
    {
        NewFolderDialog {
            is_open: false,
            parent_path: String::new(),
            folder_name: String::new(),
            error_message: None,
        }
    }
}

impl NewFolderDialog {
    /// Opens the dialog for a folder under `parent_path`, with an empty name and no error.
    pub fn open(&mut self, parent_path: String)
        ensures
            final(self).is_open,
            final(self).parent_path == parent_path,
            final(self).folder_name@ == Seq::<char>::empty(),
            final(self).error_message is None,
    {
        self.is_open = true;
        self.parent_path = parent_path;
        self.folder_name = String::new();
        self.error_message = None;
    }

    /// Closes the dialog, clearing the name and the error.
    pub fn close(&mut self)
        ensures
            !final(self).is_open,
            final(self).folder_name@ == Seq::<char>::empty(),
            final(self).error_message is None,
            final(self).parent_path == old(self).parent_path,
    {
        self.is_open = false;
        self.folder_name = String::new();
        self.error_message = None;
    }
}

/// Dialog for creating a new mob or patch file.
pub struct NewMobDialog {
    pub is_open: bool,
    pub parent_path: String,
    pub file_name: String,
    pub is_patch: bool,
    /// The base mob that a new patch is for (such as "xhitara/spitter").
    pub selected_mob_ref: Option<String>,
    /// Error message to show in the dialog.
    pub error_message: Option<String>,
}

impl Default for NewMobDialog {
    fn default() -> (r: Self)
        ensures
            !r.is_open,
            r.parent_path@ == Seq::<char>::empty(),
            r.file_name@ == Seq::<char>::empty(),
            !r.is_patch,
            r.selected_mob_ref is None,
            r.error_message is None,
    {
        NewMobDialog {
            is_open: false,
            parent_path: String::new(),
            file_name: String::new(),
            is_patch: false,
            selected_mob_ref: None,
            error_message: None,
        }
    }
}

impl NewMobDialog {
    /// Opens the dialog for a new mob under `parent_path`.
    pub fn open_mob(&mut self, parent_path: String)
        ensures
            final(self).is_open,
            final(self).parent_path == parent_path,
            final(self).file_name@ == Seq::<char>::empty(),
            !final(self).is_patch,
            final(self).selected_mob_ref is None,
            final(self).error_message is None,
    {
        self.is_open = true;
        self.parent_path = parent_path;
        self.file_name = String::new();
        self.is_patch = false;
        self.selected_mob_ref = None;
        self.error_message = None;
    }

    /// Opens the dialog for a new patch (a patch has no parent folder of its own).
    pub fn open_patch(&mut self)
        ensures
            final(self).is_open,
            final(self).parent_path@ == Seq::<char>::empty(),
            final(self).file_name@ == Seq::<char>::empty(),
            final(self).is_patch,
            final(self).selected_mob_ref is None,
            final(self).error_message is None,
    {
        self.is_open = true;
        self.parent_path = String::new();
        self.file_name = String::new();
        self.is_patch = true;
        self.selected_mob_ref = None;
        self.error_message = None;
    }

    /// Opens the dialog for a new patch of the base mob `mob_ref`; an error message shown
    /// before stays.
    pub fn open_patch_for_mob(&mut self, mob_ref: String)
        ensures
            final(self).is_open,
            final(self).parent_path@ == Seq::<char>::empty(),
            final(self).file_name@ == Seq::<char>::empty(),
            final(self).is_patch,
            final(self).selected_mob_ref == Some(mob_ref),
            final(self).error_message == old(self).error_message,
    {
        self.is_open = true;
        self.parent_path = String::new();
        self.file_name = String::new();
        self.is_patch = true;
        self.selected_mob_ref = Some(mob_ref);
    }

    /// Closes the dialog, clearing the name and the selection.
    pub fn close(&mut self)
        ensures
            !final(self).is_open,
            final(self).file_name@ == Seq::<char>::empty(),
            final(self).selected_mob_ref is None,
            final(self).parent_path == old(self).parent_path,
            final(self).is_patch == old(self).is_patch,
            final(self).error_message == old(self).error_message,
    {
        self.is_open = false;
        self.file_name = String::new();
        self.selected_mob_ref = None;
    }
}

} // verus!
