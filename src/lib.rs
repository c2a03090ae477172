//! Components of a cycle-accurate, five-stage pipelined RISC-V 32I simulator.
pub mod alu;
pub mod ca_simulator;
pub mod consts;
pub mod error;
pub mod hazards;
pub mod ia_simulator;
pub mod immediates;
pub mod instruction;
pub mod memory;
pub mod pipeline;
pub mod register;
pub mod stages;
