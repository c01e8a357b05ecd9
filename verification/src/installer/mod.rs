pub mod steam_locator;
pub mod ghost_narrative;
pub mod mod_installer;
