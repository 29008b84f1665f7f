//! What a user of the library is most likely to need.
pub use crate::binread::{BinRead, BinReaderExt};
pub use crate::error::BinResult;
