//! A verified core for a weather lookup service.
//!
//! The library holds the request/response translation pipeline of the
//! service: building request URLs for the upstream weather API, deciding
//! what an HTTP exchange's outcome means, and rendering the decoded data
//! as display text. The HTTP transport, the JSON wire decoding and the
//! tool-serving loop live outside the library and hand it plain values.

pub mod present;
pub mod report;
pub mod request;
