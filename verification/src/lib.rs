//! Small verified library of object-oriented design-pattern components:
//! an observer registry with registration, value-matched removal and
//! in-order notification, a validating person builder, additive cost
//! decorators, a method-forwarding adapter, and a reference-lifetime
//! helper.

pub mod adapter;
pub mod builder;
pub mod decorator;
pub mod lifetimes;
pub mod observer;
