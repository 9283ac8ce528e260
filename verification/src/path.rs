//! A resolved path as plain values: what the naming and build rules read of
//! the wrapped file's location.

use crate::error::SeavanErrorView;
use vstd::prelude::*;

verus! {

/// A component of a path that is read as text, as far as it can be.
#[derive(Debug)]
pub enum PathPart {
    /// The path has no such component.
    Absent,
    /// The component is there, but it is not valid text.
    NotText,
    /// The component, as text.
    Text(String),
}

/// A `PathPart` with its text as a sequence of characters.
pub enum PathPartView {
    Absent,
    NotText,
    Text(Seq<char>),
}

impl View for PathPart {
    type V = PathPartView;

    open spec fn view(&self) -> PathPartView {
        match self {
            PathPart::Absent => PathPartView::Absent,
            PathPart::NotText => PathPartView::NotText,
            PathPart::Text(text) => PathPartView::Text(text@),
        }
    }
}

/// An absolute path with its symbolic links resolved, taken apart.
#[derive(Debug)]
pub struct ResolvedPath {
    /// The whole path, as it is shown in messages.
    pub location: String,
    /// The final component: the name of the wrapped file.
    pub file_name: PathPart,
    /// The path without its final component, in the bytes in which the
    /// operating system gave it: the directory of the wrapped file. `None`
    /// where the path has no such part.
    pub directory: Option<Vec<u8>>,
}

/// A `ResolvedPath` with its texts and bytes as sequences.
pub struct ResolvedPathView {
    pub location: Seq<char>,
    pub file_name: PathPartView,
    pub directory: Option<Seq<u8>>,
}

impl View for ResolvedPath {
    type V = ResolvedPathView;

    open spec fn view(&self) -> ResolvedPathView {
        ResolvedPathView {
            location: self.location@,
            file_name: self.file_name@,
            directory: match self.directory {
                Some(directory) => Some(directory@),
                None => None,
            },
        }
    }
}

/// The name of the wrapped file, or the error that stands for its want.
pub open spec fn file_name_of(path: ResolvedPathView) -> Result<Seq<char>, SeavanErrorView> {
    match path.file_name {
        PathPartView::Absent => Err(SeavanErrorView::NoFileName(path.location)),
        PathPartView::NotText => Err(SeavanErrorView::FailedStrConversion),
        PathPartView::Text(name) => Ok(name),
    }
}

/// The directory of the wrapped file, whatever its bytes, or the error that
/// stands for its want.
pub open spec fn directory_of(path: ResolvedPathView) -> Result<Seq<u8>, SeavanErrorView> {
    match path.directory {
        Some(directory) => Ok(directory),
        None => Err(SeavanErrorView::NoDirectory(path.location)),
    }
}

} // verus!
