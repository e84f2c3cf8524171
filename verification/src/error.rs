//! What can go wrong in looking up the labels of an event.

use crate::fmt::{decimal, push_decimal};
use vstd::prelude::*;
use vstd::string::StringExecFns;

verus! {

/// A failed lookup.
#[derive(Debug, PartialEq, Eq)]
pub enum Error {
    /// A read failed; the text is the system's message.
    Io(String),
    /// The device with this major and minor number has no name.
    DeviceNotFound(u32, u32),
    /// A read of the file at the path (second) failed with the message (first).
    Path(String, String),
    /// A number does not fit the type it is converted to.
    IntConv,
    /// No filesystem type has this magic number.
    FsType(u32),
    /// No file type has these type bits.
    FileType(u32),
}

impl Error {
    /// The text of each error.
    pub open spec fn spec_message(&self) -> Seq<char> {
        match self {
            Error::Io(e) => "Failed to read dir "@ + e@,
            Error::DeviceNotFound(major, minor) => "Device "@ + decimal(*major as nat) + ":"@
                + decimal(*minor as nat) + " not found"@,
            Error::Path(e, path) => e@ + ": "@ + path@,
            Error::IntConv => "Conversion failed: out of range integral type conversion attempted"@,
            Error::FsType(n) => "Conversion failed: No discriminant in enum `FsType` matches the value `"@
                + decimal(*n as nat) + "`"@,
            Error::FileType(n) => "Conversion failed: No discriminant in enum `FileType` matches the value `"@
                + decimal(*n as nat) + "`"@,
        }
    }

    /// The text of the error.
    pub fn message(&self) -> (s: String)
        ensures
            s@ == self.spec_message(),
    {
        match self {
            Error::Io(e) => {
                let mut s = String::from_str("Failed to read dir ");
                s.append(e.as_str());
                s
            },
            Error::DeviceNotFound(major, minor) => {
                let mut s = String::from_str("Device ");
                push_decimal(&mut s, *major as u64);
                s.append(":");
                push_decimal(&mut s, *minor as u64);
                s.append(" not found");
                s
            },
            Error::Path(e, path) => {
                let mut s = String::from_str(e.as_str());
                s.append(": ");
                s.append(path.as_str());
                s
            },
            Error::IntConv => String::from_str(
                "Conversion failed: out of range integral type conversion attempted",
            ),
            Error::FsType(n) => {
                let mut s = String::from_str(
                    "Conversion failed: No discriminant in enum `FsType` matches the value `",
                );
                push_decimal(&mut s, *n as u64);
                s.append("`");
                s
            },
            Error::FileType(n) => {
                let mut s = String::from_str(
                    "Conversion failed: No discriminant in enum `FileType` matches the value `",
                );
                push_decimal(&mut s, *n as u64);
                s.append("`");
                s
            },
        }
    }
}

} // verus!
