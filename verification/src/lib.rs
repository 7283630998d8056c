pub mod board;
pub mod bounded;
pub mod byte_order;
pub mod card;
pub mod error;
pub mod fight;
pub mod fight_log;
pub mod game_vm;
pub mod instruction;
pub mod instruction_rom;
pub mod on_chain_types;
pub mod processor;
pub mod rom;
pub mod ruleset;
pub mod search;
pub mod state;
pub mod unit;
pub mod vm;
pub mod vmcommand;
pub mod word;
