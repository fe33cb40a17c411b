//! A facade over a paginated movie catalog: request planning for the
//! upstream REST resources, a fail-fast join of the aggregate "home" view,
//! and translation of failures into one caller-facing error shape.
use vstd::prelude::*;

pub mod error;
pub mod gather;
pub mod http;
pub mod query;
pub mod schema;
pub mod status;
