pub mod codec;
pub mod decimal;
pub mod error;
pub mod hotp;
pub mod mac;
pub mod totp;
