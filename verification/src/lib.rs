//! Verified core of a bearer-token authentication gateway.
//!
//! The library validates tokens issued by an external identity provider:
//! it models the provider's published signing-key set, caches it with an
//! initialize-once state machine, checks a token's key and algorithm
//! family before any cryptographic work, and derives a typed identity
//! (id, email, role, token lifetime) from the verified claims.

pub mod cache;
pub mod echo;
pub mod errors;
pub mod gate;
pub mod identity;
pub mod keys;
pub mod profiles;
pub mod token;

pub use cache::KeyDirectoryCache;
pub use errors::AuthError;
pub use errors::KeyDirectoryError;
pub use gate::authenticate;
pub use identity::AuthUser;
pub use identity::UserRole;
pub use keys::KeySet;
pub use token::verify_token;
