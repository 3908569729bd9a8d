//! A minimal HTTP/1.x request/response core: a permissive request parser,
//! a response builder and wire serializer, and a prefix-based router.

pub mod headers;
pub mod httprequest;
pub mod httpresponse;
pub mod router;
pub mod server;
pub mod text;
