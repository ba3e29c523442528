//! Verified core of a legacy multimedia-runtime emulator.
//!
//! The centre of the crate is the method invocation engine of the
//! second-generation virtual machine: `Executable` values unify
//! host-implemented ("native") routines and emulated-program bytecode
//! routines behind one calling convention, bind receivers and parameters,
//! and keep the session's call-stack ledger balanced across every call,
//! successful or failing.  Around it stand verified models of the
//! shell's smaller rule sets: the first-generation socket and connection
//! globals, file-reference selection and loading, bookmark validity and
//! the storage-backend choice.

pub mod activation;
pub mod bookmarks;
pub mod class;
pub mod decimal;
pub mod error;
pub mod file_reference;
pub mod function;
pub mod method;
pub mod netconnection;
pub mod scope;
pub mod script_object;
pub mod session;
mod shared;
pub mod storage;
pub mod value;
pub mod xml_socket;

pub use activation::Activation;
pub use class::{ClassDef, ClassRef, TraitEntry};
pub use error::CallError;
pub use function::{BytecodeExecutable, Executable, Host, NativeExecutable};
pub use method::{BytecodeRoutine, Method, NativeRoutine, ParamSpec, ParamType};
pub use scope::ScopeChain;
pub use session::Session;
pub use value::Value;
