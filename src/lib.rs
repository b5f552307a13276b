//! Runtime type registry and the resolution of type identifiers read from
//! serialized data into registered reflective descriptions.
pub mod error;
pub mod registration;
pub mod registry;
pub mod resolve;
pub mod ty;

pub use error::{CustomError, MessageError};
pub use registration::TypeRegistration;
pub use registry::TypeRegistry;
pub use resolve::try_get_registration;
pub use ty::Type;
