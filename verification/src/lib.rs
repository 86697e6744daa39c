//! Members to aid in the construction of a Lens module: the transport
//! encoding that carries values between a host and a module, the pull
//! adapter over the host's source of input items, the driver that answers
//! one transform call, and the channel that holds a module's parameters.
//!
//! Every buffer that crosses the boundary is an owned byte vector here. The
//! raw addresses at which a host reads and writes them belong to the glue
//! around this crate, which hands whole buffers in and takes whole buffers
//! back.

pub mod driver;
mod endian;
pub mod error;
pub mod input;
pub mod json;
pub mod option;
pub mod params;
pub mod result;
pub mod transport;
pub mod wire;

pub use crate::driver::next;
pub use crate::error::LensError;
pub use crate::error::SdkError;
pub use crate::input::InputIterator;
pub use crate::option::StreamOption;
pub use crate::params::Parameters;
pub use crate::transport::allocate;
pub use crate::transport::nil_ptr;
pub use crate::transport::to_mem;
pub use crate::transport::try_from_mem;
pub use crate::transport::try_to_mem;
pub use crate::wire::EOS_TYPE_ID;
pub use crate::wire::ERROR_TYPE_ID;
pub use crate::wire::JSON_TYPE_ID;
pub use crate::wire::NIL_TYPE_ID;
