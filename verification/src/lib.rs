//! Verified core of the Zenth end-to-end encrypted messenger client.
pub mod api_config;
pub mod api_error;
pub mod bytes;
pub mod clock;
pub mod crypto;
pub mod db;
pub mod file_transfer;
pub mod friends;
pub mod keygen;
pub mod login;
pub mod messages;
pub mod network_key;
pub mod pin_lock;
pub mod recovery;
pub mod register;
pub mod sanitize;
pub mod sessions;
pub mod settings;
pub mod sync;
pub mod text;
pub mod x3dh;
