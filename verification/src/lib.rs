//! Response normalisation for a portfolio backend reached over HTTP.
//!
//! The transport hands this library a status code and a parsed JSON body;
//! the library answers with the uniform envelope that callers consume.

pub mod status;
pub mod text;
pub mod json;
pub mod response;
pub mod clock;
pub mod normalize;
pub mod laws;
pub mod endpoint;
