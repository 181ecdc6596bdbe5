pub mod auth;
pub mod market;
pub mod trading;

pub use auth::{AuthError, LoginRequest, LoginResponse};
pub use market::MarketQuery;
pub use trading::StrategyInputError;
