pub mod death;
pub mod faction;
pub mod health;
