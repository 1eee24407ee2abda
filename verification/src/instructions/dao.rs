pub mod dao_creation;
pub mod dao_update;
