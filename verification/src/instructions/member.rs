pub mod initialize_member;
pub mod update_member;
