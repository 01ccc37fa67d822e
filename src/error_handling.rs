//! Error values of the library.
use vstd::prelude::*;
use vstd::string::*;

verus! {

#[derive(Debug)]
pub enum ErrorType {
    /// A diagnostic from the native side could not be read as text.
    InvalidString,
    /// The native engine refused the configuration at creation.
    CreateError(String),
    /// A change of an existing resampler was refused.
    ChangeError(String),
    /// A conversion step failed.
    ProcessError(String),
    /// A buffer of `len` values cannot be divided among `channels` channels.
    SizeMismatch { len: usize, channels: u32 },
}

/// An error, with the name of the function that raised it where known.
#[derive(Debug)]
pub struct Error(pub Option<String>, pub ErrorType);

pub type Result<T> = core::result::Result<T, Error>;

impl ErrorType {
    pub open spec fn spec_message(&self) -> Seq<char> {
        match self {
            ErrorType::InvalidString => "Invalid string"@,
            ErrorType::CreateError(s) => "Could not create soxr struct: "@ + s@,
            ErrorType::ChangeError(s) => "Could not change soxr struct: "@ + s@,
            ErrorType::ProcessError(s) => "Could not process data: "@ + s@,
            ErrorType::SizeMismatch { .. } => "Buffer length is not a multiple of the channel count"@,
        }
    }

    /// A readable description of the error.
    pub fn message(&self) -> (r: String)
        ensures
            r@ == self.spec_message(),
    {
        match self {
            ErrorType::InvalidString => "Invalid string".to_owned(),
            ErrorType::CreateError(s) => "Could not create soxr struct: ".to_owned().concat(s.as_str()),
            ErrorType::ChangeError(s) => "Could not change soxr struct: ".to_owned().concat(s.as_str()),
            ErrorType::ProcessError(s) => "Could not process data: ".to_owned().concat(s.as_str()),
            ErrorType::SizeMismatch { .. } => "Buffer length is not a multiple of the channel count".to_owned(),
        }
    }
}

impl Error {
    pub fn new(func: Option<String>, t: ErrorType) -> (r: Error)
        ensures
            r.0 == func,
            r.1 == t,
    {
        Error(func, t)
    }

    pub fn invalid_str(func: &str) -> (r: Error)
        ensures
            r.0 matches Some(f) && f@ == func@,
            r.1 is InvalidString,
    {
        Error(Some(func.to_owned()), ErrorType::InvalidString)
    }

    /// A readable description of the error, naming the function that raised it where known.
    pub fn message(&self) -> (r: String)
        ensures
            self.0 matches Some(f) ==> r@ == "SOXR error: '"@ + f@ + "' from function '"@
                + self.1.spec_message() + "'"@,
            self.0 is None ==> r@ == "SOXR error: '"@ + self.1.spec_message() + "'"@,
    {
        let kind = self.1.message();
        match &self.0 {
            Some(f) => {
                let s = "SOXR error: '".to_owned().concat(f.as_str());
                let s = s.concat("' from function '");
                let s = s.concat(kind.as_str());
                s.concat("'")
            },
            None => {
                let s = "SOXR error: '".to_owned().concat(kind.as_str());
                s.concat("'")
            },
        }
    }
}

} // verus!
