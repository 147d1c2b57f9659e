pub mod fix;
pub mod player;
pub mod yoshi;
pub mod search;
