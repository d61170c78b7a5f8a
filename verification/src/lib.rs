//! Typed building blocks for a client of Pixiv's web JSON API.
//!
//! Everything here is pure: the transport that sends requests lives outside
//! this crate and hands it plain values (page text, header bytes, decoded
//! envelopes, dictionary entries). In return it gets endpoint URLs, the
//! session cookie, the anti-forgery token, and resolved response bodies.
pub mod de;
pub mod decimal;
pub mod endpoint;
pub mod error;
pub mod session;
pub mod trusted;
pub mod types;

pub use crate::error::Error;
pub use crate::types::{
    IllustImage, IllustImageUrls, IllustInfo, IllustProfile, IllustType, Restriction, UserAllWorks,
    UserInfo, UserProfile, UserTopWorks, WrappedResponse,
};
