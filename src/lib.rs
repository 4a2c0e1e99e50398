//! An EtherCAT master's slave initialization: the task that takes one slave
//! from power-up to a configured state, with the AL state transfer and EEPROM
//! reader it delegates to, and the network model it fills.
pub mod al_state_transfer;
pub mod bits;
pub mod command;
pub mod error;
pub mod register;
pub mod sii_reader;
pub mod slave;
pub mod slave_initializer;

pub use slave_initializer::{SlaveInitializer, SlaveInitializerError};
