//! Host-side model of the Bolt scripting engine's embedding interface:
//! tagged values, object headers, type descriptors, contexts and call
//! threads, with the rules that hold between host and engine stated as
//! contracts and proved.

pub mod annotation;
pub mod bt_object;
pub mod containers;
pub mod context;
pub mod convert;
pub mod enums;
pub mod error;
pub mod gc;
pub mod handlers;
pub mod heap;
pub mod identity;
pub mod modules;
pub mod object_mask;
pub mod raw;
pub mod signature;
pub mod strings;
pub mod tableshape;
pub mod thread;
pub mod ty;
pub mod userdata;
pub mod value;
pub mod wrappers;

pub use context::Context;
pub use convert::{EnumValue, FromBoltValue, MakeBoltValue, MakeBoltValueWithContext, Number};
pub use error::{ArgError, Error, ModuleError};
pub use signature::{CallSignature, ScalarTypeSignature, TypeSignature};
pub use thread::Thread;
pub use value::{Value, ValueType};
pub use wrappers::IntoCStr;
