//! Deterministic name-to-hash contract identifier scheme and schema compiler.
//!
//! A contract schema declares a contract name and an ordered list of callable
//! entry points (mutating functions and read-only views). Every name is mapped
//! to a 32-bit identifier (`ScHname`) derived from a BLAKE2b-256 digest of the
//! name, and the compiler turns a validated schema into a binding: a table of
//! call descriptors that preserves the schema's declaration order.

pub mod calls;
pub mod coreaccounts;
pub mod coreblob;
pub mod hname;
pub mod render;
pub mod schema;

pub use calls::{ScFunc, ScFuncContext, ScView, ScViewContext};
pub use coreblob::{GetBlobFieldCall, GetBlobInfoCall, ListBlobsCall, StoreBlobCall};
pub use hname::{hash, hname_from_digest, ScHname};
pub use render::render;
pub use schema::{
    compile, CallDescriptor, CallKind, ContractSchema, FunctionEntry, GeneratedBinding,
    SchemaError,
};
