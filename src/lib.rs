pub mod contract;
pub mod error;
pub mod msg;
pub mod state;
