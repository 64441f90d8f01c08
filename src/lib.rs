pub mod coin;
pub mod purse;
pub mod render;
