use vstd::prelude::*;

pub mod bytes;
pub mod control;
pub mod demosaic;
pub mod model;
pub mod protocol;
pub mod registry;
pub mod robot;
