//! Marshalling of values across a native-call boundary, and the owning wrappers of the
//! line-descriptor module's native objects.
//!
//! Plain values cross as themselves; fixed-layout values are shown in place; native objects
//! are owned through their handles and released once; text crosses as a nul-terminated copy
//! of its UTF-8 bytes, and byte buffers as their bytes and count.
#![allow(non_camel_case_types)]
#![allow(non_snake_case)]
#![allow(non_upper_case_globals)]

pub mod boxed;
pub mod c_string;
pub mod error;
pub mod line_descriptor;
pub mod opencv_type;
pub mod text;

pub use boxed::{Boxed, RawHandle, ReleaseLog};
pub use c_string::{cstring_new_nofail, CString, NulError};
pub use error::Error;
pub use opencv_type::{OpenCVType, OpenCVTypeArg, OpenCVTypeCopy, OpenCVTypeExternContainer};
