//! The records that describe an asset.

use std::path::PathBuf;
use vstd::prelude::*;
use vstd::string::*;

verus! {

/// A path of the file system. Its components are not looked into: a path is carried
/// from the scan of the asset directory to whoever reads the file.
#[verifier::external_type_specification]
#[verifier::external_body]
pub struct ExPathBuf(PathBuf);

/// `PathBuf::clone` gives a path equal to the one cloned.
pub assume_specification[ <PathBuf as Clone>::clone ](p: &PathBuf) -> (r: PathBuf)
    ensures
        r == *p,
;

/// One regular file that a scan of the asset directory found.
#[derive(Debug, PartialEq, Eq)]
pub struct ScannedFile {
    pub path: PathBuf,
    /// The last component of the path, as text.
    pub filename: String,
    pub size_bytes: u64,
}

/// An asset of the catalog.
#[derive(Debug, PartialEq, Eq)]
pub struct Meme {
    /// Derived from the file's name, so that it stays the same from one scan to the next.
    pub id: u32,
    pub path: PathBuf,
    pub mime_type: String,
    pub filename: String,
    pub size_bytes: u64,
}

/// What a client is told of an asset.
#[derive(Debug, PartialEq, Eq)]
pub struct MemeResponse {
    pub id: u32,
    pub mime_type: String,
}

/// A scanned file with its text as sequences of characters.
pub struct ScannedFileView {
    pub path: PathBuf,
    pub filename: Seq<char>,
    pub size_bytes: u64,
}

/// An asset with its text as sequences of characters.
pub struct MemeView {
    pub id: u32,
    pub path: PathBuf,
    pub mime_type: Seq<char>,
    pub filename: Seq<char>,
    pub size_bytes: u64,
}

impl View for ScannedFile {
    type V = ScannedFileView;

    open spec fn view(&self) -> ScannedFileView {
        ScannedFileView { path: self.path, filename: self.filename@, size_bytes: self.size_bytes }
    }
}

impl View for Meme {
    type V = MemeView;

    open spec fn view(&self) -> MemeView {
        MemeView {
            id: self.id,
            path: self.path,
            mime_type: self.mime_type@,
            filename: self.filename@,
            size_bytes: self.size_bytes,
        }
    }
}

impl Clone for ScannedFile {
    fn clone(&self) -> (r: Self)
        ensures
            r == *self,
    {
        ScannedFile {
            path: self.path.clone(),
            filename: self.filename.clone(),
            size_bytes: self.size_bytes,
        }
    }
}

impl Clone for Meme {
    fn clone(&self) -> (r: Self)
        ensures
            r == *self,
    {
        Meme {
            id: self.id,
            path: self.path.clone(),
            mime_type: self.mime_type.clone(),
            filename: self.filename.clone(),
            size_bytes: self.size_bytes,
        }
    }
}

impl Clone for MemeResponse {
    fn clone(&self) -> (r: Self)
        ensures
            r == *self,
    {
        MemeResponse { id: self.id, mime_type: self.mime_type.clone() }
    }
}

impl MemeResponse {
    /// The identifier and the media type of `meme`.
    pub fn of(meme: &Meme) -> (r: MemeResponse)
        ensures
            r.id == meme.id,
            r.mime_type == meme.mime_type,
    {
        MemeResponse { id: meme.id, mime_type: meme.mime_type.clone() }
    }
}

} // verus!
