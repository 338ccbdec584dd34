//! A portable note book: the note model, the title shown in the list, the
//! font catalog, the recovery rules for the notes file and the editing
//! session that the window drives.

pub mod text;
pub mod stamp;
pub mod model;
pub mod settings;
pub mod session;
pub mod storage;
