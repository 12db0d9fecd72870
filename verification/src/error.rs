//! The error type of the service and what each error means to a client.

use vstd::prelude::*;
use vstd::string::*;
use crate::text::{decimal, push_decimal};

verus! {

/// Everything that can go wrong while serving an asset.
#[derive(Debug, PartialEq, Eq)]
pub enum AppError {
    /// Reading a file failed.
    Io(String),
    ImageProcessing(String),
    Cache(String),
    Config(String),
    MemeNotFound { id: u32 },
    InvalidRequest(String),
    /// The identifier is unknown, or nothing is there to pick from.
    NotFound(String),
    /// A rebuild found nothing, or an image could not be decoded, scaled or encoded.
    Internal(String),
    BadRequest(String),
    /// The watcher of the asset directory failed.
    FileSystem(String),
}

/// The three classes of answer that an error can lead to.
#[derive(Debug, Clone, Copy, PartialEq, Eq, Structural)]
pub enum ErrorClass {
    NotFound,
    BadRequest,
    ServerError,
}

impl ErrorClass {
    /// The status code of the class.
    pub open spec fn code(self) -> u16 {
        match self {
            ErrorClass::NotFound => 404,
            ErrorClass::BadRequest => 400,
            ErrorClass::ServerError => 500,
        }
    }

    pub fn status_code(self) -> (c: u16)
        ensures
            c == self.code(),
    {
        match self {
            ErrorClass::NotFound => 404,
            ErrorClass::BadRequest => 400,
            ErrorClass::ServerError => 500,
        }
    }
}

impl Clone for AppError {
    fn clone(&self) -> (r: Self)
        ensures
            r == *self,
    {
        match self {
            AppError::Io(m) => AppError::Io(m.clone()),
            AppError::ImageProcessing(m) => AppError::ImageProcessing(m.clone()),
            AppError::Cache(m) => AppError::Cache(m.clone()),
            AppError::Config(m) => AppError::Config(m.clone()),
            AppError::MemeNotFound { id } => AppError::MemeNotFound { id: *id },
            AppError::InvalidRequest(m) => AppError::InvalidRequest(m.clone()),
            AppError::NotFound(m) => AppError::NotFound(m.clone()),
            AppError::Internal(m) => AppError::Internal(m.clone()),
            AppError::BadRequest(m) => AppError::BadRequest(m.clone()),
            AppError::FileSystem(m) => AppError::FileSystem(m.clone()),
        }
    }
}

impl AppError {
    /// The class of the error: an unknown asset is the client's concern, a malformed
    /// request too, everything else is the server's.
    pub open spec fn class_spec(self) -> ErrorClass {
        match self {
            AppError::MemeNotFound { .. } | AppError::NotFound(_) => ErrorClass::NotFound,
            AppError::InvalidRequest(_) | AppError::BadRequest(_) => ErrorClass::BadRequest,
            _ => ErrorClass::ServerError,
        }
    }

    /// The short description that heads the text of the error.
    pub open spec fn label_spec(self) -> Seq<char> {
        match self {
            AppError::Io(_) => "IO error"@,
            AppError::ImageProcessing(_) => "Image processing error"@,
            AppError::Cache(_) => "Cache error"@,
            AppError::Config(_) => "Configuration error"@,
            AppError::MemeNotFound { .. } => "Meme not found"@,
            AppError::InvalidRequest(_) => "Invalid request"@,
            AppError::NotFound(_) => "Not found"@,
            AppError::Internal(_) => "Internal server error"@,
            AppError::BadRequest(_) => "Bad request"@,
            AppError::FileSystem(_) => "File system error"@,
        }
    }

    /// The description that a client is given in place of the error's own text.
    pub open spec fn public_label_spec(self) -> Seq<char> {
        match self {
            AppError::Io(_) => "Internal server error"@,
            _ => self.label_spec(),
        }
    }

    /// What the error is about: the message it carries, or the numeral of the identifier.
    pub open spec fn detail_spec(self) -> Seq<char> {
        match self {
            AppError::Io(m) => m@,
            AppError::ImageProcessing(m) => m@,
            AppError::Cache(m) => m@,
            AppError::Config(m) => m@,
            AppError::MemeNotFound { id } => decimal(id as nat),
            AppError::InvalidRequest(m) => m@,
            AppError::NotFound(m) => m@,
            AppError::Internal(m) => m@,
            AppError::BadRequest(m) => m@,
            AppError::FileSystem(m) => m@,
        }
    }

    /// The full text of the error: label, a colon and a space, then the detail.
    pub open spec fn message_spec(self) -> Seq<char> {
        self.label_spec() + ": "@ + self.detail_spec()
    }

    pub fn class(&self) -> (c: ErrorClass)
        ensures
            c == self.class_spec(),
    {
        match self {
            AppError::MemeNotFound { .. } | AppError::NotFound(_) => ErrorClass::NotFound,
            AppError::InvalidRequest(_) | AppError::BadRequest(_) => ErrorClass::BadRequest,
            _ => ErrorClass::ServerError,
        }
    }

    /// The status code with which the error is answered.
    pub fn status_code(&self) -> (c: u16)
        ensures
            c == self.class_spec().code(),
    {
        self.class().status_code()
    }

    pub fn label(&self) -> (s: &'static str)
        ensures
            s@ == self.label_spec(),
    {
        match self {
            AppError::Io(_) => "IO error",
            AppError::ImageProcessing(_) => "Image processing error",
            AppError::Cache(_) => "Cache error",
            AppError::Config(_) => "Configuration error",
            AppError::MemeNotFound { .. } => "Meme not found",
            AppError::InvalidRequest(_) => "Invalid request",
            AppError::NotFound(_) => "Not found",
            AppError::Internal(_) => "Internal server error",
            AppError::BadRequest(_) => "Bad request",
            AppError::FileSystem(_) => "File system error",
        }
    }

    /// The description for a client: that of the error, but a failed read is reported
    /// as an internal error.
    pub fn public_label(&self) -> (s: &'static str)
        ensures
            s@ == self.public_label_spec(),
    {
        match self {
            AppError::Io(_) => "Internal server error",
            _ => self.label(),
        }
    }

    /// The text of the error, as it is logged and sent.
    pub fn message(&self) -> (s: String)
        ensures
            s@ == self.message_spec(),
    {
        let mut s = String::from_str(self.label());
        s.append(": ");
        match self {
            AppError::MemeNotFound { id } => push_decimal(&mut s, *id as u64),
            AppError::Io(m) | AppError::ImageProcessing(m) | AppError::Cache(m)
            | AppError::Config(m) | AppError::InvalidRequest(m) | AppError::NotFound(m)
            | AppError::Internal(m) | AppError::BadRequest(m) | AppError::FileSystem(m) => {
                s.append(m.as_str())
            },
        }
        s
    }
}

} // verus!
