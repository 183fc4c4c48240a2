//! Game logic of the WhoreMaster Renewal simulation: girls, items, dungeon,
//! rivals, jobs, the script converter and the data-file conversions.
pub mod enums;
pub mod rng;
pub mod strs;
pub mod girl;
pub mod girls;
pub mod script_converter;
pub mod lua_text;
pub mod item;
pub mod inventory;
pub mod dungeon;
pub mod traits;
pub mod screen;
pub mod config;
pub mod gangs;
pub mod player;
pub mod rivals;
pub mod customers;
pub mod editor;
pub mod triggers;
pub mod combat;
pub mod jobs;
pub mod turn;
