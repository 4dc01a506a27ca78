pub mod collection_items;
pub mod multiple_collections;
pub mod updates;
