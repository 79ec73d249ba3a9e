pub mod config;
pub mod desktop;
pub mod greetd;
pub mod laws;
pub mod keyboard;
pub mod masked;
pub mod menu;
pub mod numlock;
pub mod paths;
pub mod power;
pub mod remember;
pub mod secret;
pub mod sessions;
pub mod state;
pub mod store;
pub mod style;
pub mod terminal;
pub mod text;
pub mod users;
pub mod util;
pub mod vt;
