pub mod account;
pub mod custom_types;
pub mod error;
pub mod execution;
pub mod execution_engine;
pub mod governance;
pub mod proposal;
pub mod proposal_engine;
pub mod reputation;
pub mod uint;
pub mod voting;
pub mod voting_engine;
