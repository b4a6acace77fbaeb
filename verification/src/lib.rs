//! The editing model of a mob editor: mob definition documents (TOML tables), the edits that
//! the editor's panels make on them, the decisions of its file browser and dialogs, and the
//! names and texts that it shows. Each operation states what it does to the document model.

pub mod document;
pub mod session;
pub mod text;
pub mod chars;
pub mod colliders;
pub mod decorations;
pub mod jointed;
pub mod spawners;
pub mod behavior;
pub mod names;
pub mod dialogs;
pub mod forms;
pub mod fields;
pub mod properties;
pub mod sprites;
pub mod sections;
pub mod laws;
pub mod behavior_laws;
