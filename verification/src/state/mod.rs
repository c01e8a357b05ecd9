pub mod light_calculator;
pub mod inventory;
pub mod account;
pub mod activity;
pub mod starter_loadout;
pub mod activity_director;
pub mod package_scanner;
pub mod profile_store;
