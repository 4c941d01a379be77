//! Commonly used types, re-exported for convenient imports.

use vstd::prelude::*;

verus! {

pub use crate::error::Error;
pub use crate::packet::Packet;
pub use crate::repr::Repr;
pub use crate::types::{ClientId, MessageId, MessageType, RequestId, ReturnCode};

} // verus!
