pub mod app_state;
pub mod ghost_art;
pub mod views;
pub mod installer_flow;
