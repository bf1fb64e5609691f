//! Binding core for plugin modules that serve a host through four capability tables:
//! the value codec, the host allocator bridge, the component envelope and the addin
//! contracts.

pub mod variant;
pub mod memory;
pub mod addin;
pub mod names;
pub mod simple;
pub mod envelope;

pub use addin::{Addin as RawAddin, Connection};
pub use envelope::{AttachType, Component, Lifecycle};
pub use memory::{HostCall, MemoryManager};
pub use names::{from_os_string, os_string};
pub use simple::{Addin as SimpleAddin, AddInContainer, MethodEntry, MethodInfo, Methods, PropInfo};
pub use variant::{ParamValue, SlotWrite, TVariant, Tm, Variant};
