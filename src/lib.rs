pub mod arith;
pub mod search;
pub mod user;
