//! An in-memory store of `(id, name)` records and the logic of the three
//! requests served over it: create, list, and lookup by id.

mod handlers;
mod laws;
mod record;
mod state;

pub use state::{seed_records, views, AppState};
pub use handlers::{get, get_all, has_id, is_first_with_id, post};
pub use laws::{
    after_posts, lemma_create_then_list, lemma_creates_keep_every_record, lemma_list_repeatable,
};
pub use record::{not_found_message, ErrNoId, Hello};

