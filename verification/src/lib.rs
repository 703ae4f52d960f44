//! Normalises two descriptions of a contract's executable code, the legacy
//! structured program and the compiled class, into one program model.
//!
//! [`casm_contract_into_contract_class`] builds a [`ContractClass`] from a
//! compiled class, [`ContractClass::try_from`] from a legacy class, and
//! [`deserialize_program`] builds the program of a legacy document for a
//! document parser.

pub mod casm;
pub mod class;
pub mod entry_point;
pub mod felt;
pub mod legacy;
pub mod literal;
pub mod natural;
pub mod program;

pub use casm::casm_contract_into_contract_class;
pub use class::{ContractClass, ContractClassInner};
pub use legacy::deserialize_program;
