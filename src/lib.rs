//! A word-addressed 16-bit virtual machine of the LC-3 family: instruction
//! decoding, the opcode handlers, the trap routines and the image loader, each
//! with its behaviour stated as a contract.

pub mod vm;
