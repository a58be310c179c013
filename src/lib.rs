//! Runtime support for WebAssembly modules built by a C-to-wasm toolchain:
//! memory layout, guest pointer translation, variadic arguments, syscall
//! decoding, nonlocal jumps and the table of imports a module links against.

pub mod layout;
pub mod memory;
pub mod bootstrap;
pub mod varargs;
pub mod jmp;
pub mod syscalls;
pub mod registry;
pub mod instance;
pub mod dispatch;
