pub mod get_trust_score;
pub mod initialize_verification;
pub mod is_verified;
pub mod verify_user;
