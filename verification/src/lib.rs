//! Models the import interface of a WebAssembly module: the external
//! functions, globals, memories and tables a module declares it needs from
//! its host. A registry of import descriptors can be built from an explicit
//! list or from a named preset (the "ewasm" host ABI), and queried by field
//! name; a surrounding validator compares a module's actual imports against
//! the descriptors it finds.

pub mod imports;
pub mod preset;
pub mod types;

pub use imports::ImportError;
pub use imports::ImportList;
pub use imports::ImportType;
pub use types::FunctionType;
pub use types::ValueType;
