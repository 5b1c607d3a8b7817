//! The six operations of the engine, one module each. Every handler takes
//! the accounts of the operation as one params struct, validates them,
//! and either applies the whole operation or returns an error having
//! changed nothing.

pub mod cancel_subscription;
pub mod charge_subscription;
pub mod close_subscription;
pub mod create_plan;
pub mod create_subscription;
pub mod uncancel_subscription;
