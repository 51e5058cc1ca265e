//! CSRF protection built on the double-submit-cookie pattern.
//!
//! A signed token is stored in a cookie and echoed back by the client in a
//! request header; a mutating request is accepted only when the two match and
//! the signature verifies under the configured secret.

pub mod bytes;
pub mod config;
pub mod crypto;
pub mod decimal;
pub mod error;
pub mod guard;
pub mod jar;
pub mod method;
pub mod surf;
pub mod token;

pub use config::Expiry;
pub use config::SameSite;
pub use config::TokenConfig;
pub use crypto::sign_and_encode;
pub use decimal::decimal_of_i128;
pub use decimal::decimal_of_u128;
pub use error::Error;
pub use guard::Guard;
pub use guard::GuardService;
pub use guard::GuardState;
pub use guard::Verdict;
pub use guard::guard_precheck;
pub use guard::guard_verdict;
pub use guard::spec_verdict;
pub use jar::CookieEntry;
pub use jar::CookieJar;
pub use method::HttpMethod;
pub use method::is_mutating_method;
pub use surf::Surf;
pub use surf::bootstrap;
pub use token::Token;
pub use token::assemble_token;
pub use token::create_token;
pub use token::validate_token;
