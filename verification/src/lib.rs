//! Core of a read-only REST gateway in front of a secrets-management platform.
//!
//! The gateway answers one kind of request: fetch a secret by identifier on
//! behalf of a caller who presents a bearer token. This crate holds the
//! decisions of that request: what is asked of the upstream platform, how the
//! fetched record is normalised, and which HTTP status and message every
//! upstream failure becomes. Network I/O stays with the caller, which performs
//! the upstream calls and hands their outcomes back.

pub mod codec;
pub mod error;
pub mod handler;
pub mod health;
pub mod laws;
pub mod secret;
pub mod settings;
pub mod status;

pub use error::{classify, classify_with, not_found_handler, ErrorMessage, UpstreamFailure};
pub use handler::{
    get_secret, status_of, AccessTokenLoginRequest, Authenticating, Fetching, LoginCall,
    SecretGetRequest, SecretIdentifier,
};
pub use health::{
    forward_host, health, health_fw, health_listener, health_url, ForwardOutcome, IpAddress,
    ListenAddress,
};
pub use secret::{SecretValue, StructuredSecretResponse, Timestamp, UpstreamSecret};
pub use settings::{settings, ClientSettings, DeviceType, Settings};
pub use status::StatusCode;
