pub mod find;
pub mod history;
pub mod intent;
pub mod pr;
pub mod pr_repo;
pub mod rename;
pub mod search;
pub mod selection;
pub mod shell;
pub mod status;
pub mod update;
pub mod util;

pub use util::{default_variant_to_none, fuzzy_contains, model_key, selected_list_offset, viewport_capacity};
