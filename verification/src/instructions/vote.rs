pub mod rewards;
pub mod voter;
