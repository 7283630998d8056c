pub mod game_state;
pub mod instruction_rom;
pub mod object;
pub mod object_type;
pub mod vmcommand;
