//! Verified core of a battery-powered field sensor node: the connectivity
//! state machine, network-readiness gate, webhook publish cycle, sensor
//! classification rules and the sleep/wake plan. Hardware access (radio,
//! ADC, I2C, sockets, deep sleep) lives outside this crate; every decision
//! the node takes is made here, on plain values, and proved.

pub mod ambient;
pub mod connectivity;
pub mod moisture;
pub mod readiness;
pub mod sampler;
pub mod sleep;
pub mod webhook;
