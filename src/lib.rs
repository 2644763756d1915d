//! Reads typed, owned snapshots of the object graph of a separate running game
//! process out of its memory, at fixed offsets recovered for its build.

pub mod entity_list;
pub mod error;
pub mod ids;
pub mod process;
pub mod remote_ptr;
pub mod scan;
pub mod strings;
pub mod types;

pub use entity_list::get_static_entity_list;
pub use process::find_game_process;
pub use types::EntityPtr;
