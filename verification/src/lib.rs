//! Core of an 8-bit accumulator-style CPU emulator: a register file with
//! composed 16-bit pairs, a four-flag status register, a partial instruction
//! decoder, an execution engine with per-instruction cost bookkeeping, a
//! direct-mapped decode cache with hit/miss accounting, and a debugger that
//! gates execution through breakpoints, pausing and step limits.
//!
//! A second, independent 32-bit core and a few self-contained game and
//! utility modules from the same codebase live beside it.

pub mod registers;
pub mod flags;
pub mod instructions;
pub mod memory;
pub mod cpu;
pub mod optimizer;
pub mod fmt;
pub mod disassembler;
pub mod breakpoint;
pub mod debugger;
pub mod lcd;
pub mod tiles;
pub mod sprites;
pub mod emulator;
pub mod advanced;
pub mod common;
pub mod error;
pub mod config;
pub mod rom;
pub mod tetris;
pub mod gba;
pub mod gba_gpu;
pub mod entropy;
pub mod quantum;
