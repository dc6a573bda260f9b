pub mod state;
pub mod session;
