//! Declarative reading of binary data from a seekable byte stream.
//!
//! A value is read in two phases. Phase one reads what stands at the position
//! of the stream; phase two follows the pointers that phase one found, so
//! that a pointer may lead forward, to bytes behind the value that holds it.
//! The context of a read (byte order, base offset and so on) is a value that
//! is handed down from a record to its fields.
//!
//! ```
//! use binrw::io::Cursor;
//! use binrw::{AbsFilePtr, BinReaderExt};
//!
//! let mut reader = Cursor::new(b"\0\0\0\x08\0\0\0\0\xff".to_vec());
//! let pointer: AbsFilePtr<u32, u8> = reader.read_be().unwrap();
//! assert_eq!(pointer.ptr, 8);
//! assert_eq!(*pointer.deref(), 0xFF);
//! assert_eq!(reader.position(), 4);
//! ```
//!
//! The modules, leaves first: [`codec`] says what number a run of bytes
//! stands for; [`io`] is the stream; [`error`] is what a read can fail with;
//! [`endian`] and [`options`] are the context; [`binread`] is the protocol
//! and its instances for numbers, tuples, arrays and boxes; [`file_ptr`] is
//! pointers; [`helpers`] is sequences; [`variant`] chooses among the
//! candidate shapes of a value.
pub mod binread;
pub mod codec;
pub mod endian;
pub mod error;
pub mod file_ptr;
pub mod helpers;
pub mod io;
pub mod options;
pub mod prelude;
pub mod variant;

pub use binread::{BinRead, BinReadExt, BinReaderExt};
pub use endian::Endian;
pub use error::{BinResult, Error};
pub use file_ptr::{
    AbsFilePtr, AbsFilePtr128, AbsFilePtr16, AbsFilePtr32, AbsFilePtr64, AbsFilePtr8, AbsPlacement,
    IntoSeekFrom, RelFilePtr, RelFilePtr128, RelFilePtr16, RelFilePtr32, RelFilePtr64, RelFilePtr8,
    RelPlacement,
};
pub use options::{ReadOptions, ReadOptionsExt};
