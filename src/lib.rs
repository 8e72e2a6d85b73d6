//! State of a small IoT controller: one owner account records temperature
//! readings, switches two relays and hands out single step-motor tasks.

pub mod account;

pub mod contract;
pub mod laws;
