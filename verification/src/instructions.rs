pub mod fulfill_random_words;
pub mod initialize;
pub mod lock_odds;
pub mod play_game;
pub mod set_max_balls;
pub mod set_min_buy_in;
pub mod set_paused;
pub mod set_payout;
pub mod set_platform_fee;
pub mod withdraw_from_vault;
