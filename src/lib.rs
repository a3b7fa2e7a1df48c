//! A small fetch-decode-execute engine for a 16-bit instruction set: a flat
//! byte memory, sixteen 8-bit registers (the last doubling as the carry flag)
//! and a bounded call stack.
//!
//! `model` states what every instruction and a bounded run do to the machine
//! as values; `machine` (with a call stack), `linear` (without one) and
//! `single` (one operation word) are executable machines proved against it;
//! `laws` holds properties of the handlers and the executor.
pub mod decode;
pub mod model;
pub mod memory;
pub mod registers;
pub mod machine;
pub mod linear;
pub mod single;
pub mod laws;
