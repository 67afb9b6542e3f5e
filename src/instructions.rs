pub mod stake;
pub mod process_death;
pub mod checkin;
pub mod claim_bonus;
pub mod claim_rewards;
pub mod initialize;
pub mod set_checkin_interval;
pub mod start_bonus_window;
pub mod withdraw;
