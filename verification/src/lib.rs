//! The boundary layer of a small fitness-tracking backend: fixed-width text
//! records, the bridges to the native JSON codec, a request framer, the route
//! dispatcher and the record store.

pub mod bridge;
pub mod codec;
pub mod database_handler;
pub mod dispatch;
pub mod framer;
pub mod number;
pub mod request;
pub mod response;
pub mod sqlite;
pub mod text;
pub mod wt_types;
