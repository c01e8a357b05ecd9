pub mod item_definition;
pub mod manifest_store;
pub mod manifest_downloader;
