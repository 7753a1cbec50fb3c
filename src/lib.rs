//! Execution-and-trace core of a RISC-V zkVM: the Baby Bear field, byte-wise
//! words, instruction columns, CPU constraint evaluation and the Poseidon2
//! external-round precompile.
pub mod field;
pub mod instruction;
pub mod word;
pub mod columns;
pub mod cpu;
pub mod runtime;
pub mod mds;
pub mod poseidon2;
pub mod prover;
