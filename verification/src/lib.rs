//! Host-side TCP socket resources for a sandboxed guest, and text assembly
//! for zkASM programs.
//!
//! The socket side: the phase machine of a TCP socket (`socket`), the
//! resource table that owns sockets and their streams (`table`), the call
//! surface over handles (`host`), the address checks in front of the
//! network pool (`address`, `network`), and the error taxonomy (`error`).
//! No function here makes a system call: each operation that needs one is
//! split into the decision before the call and the step after it.
//!
//! The code generation side: the frame and the labels of zkASM program
//! text (`zkasm`, `text`), and the metadata of tables and linear memories
//! that code generation resolves (`env`).

pub mod address;
pub mod env;
pub mod error;
pub mod host;
pub mod network;
pub mod socket;
pub mod table;
pub mod text;
pub mod zkasm;
