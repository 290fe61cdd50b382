//! A minimalist blog: posts kept in SQLite with a cache of the newest ones,
//! editable Markdown pages, and a store of expiring session tokens and API keys.

pub mod markup;
pub mod dynamic_site;
pub mod assoc;
pub mod crypto;
pub mod clock;
pub mod sesser;
pub mod text;
pub mod sqlite;
pub mod posts;
pub mod cache;
pub mod users;
pub mod site;
