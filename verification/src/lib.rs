//! The logic of a small HTTP API: what its handlers compute, and how a
//! failed request becomes a status code and a uniform error payload.

use vstd::prelude::*;

pub mod err;
pub mod failure;
pub mod handlers;
pub mod status;
pub mod timestamp;
