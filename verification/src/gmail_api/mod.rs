//! What the engine computes around the calls to the remote mail service:
//! the requests it asks for and what it makes of the answers.
pub mod auth;
pub mod labels;
pub mod messages;
pub mod operations;

pub use auth::{AuthResult, RealOAuthFlow, SecureCredentials};
pub use auth::{KEYRING_SERVICE_NAME, KEYRING_USERNAME};
pub use labels::labels_of_response;
pub use messages::{fetch_full_message, fetch_messages_for_label, load_more_messages};
pub use operations::{build_raw_email, encode_email};
