//! The file operations the editor asks its driver for.
//!
//! The editor itself never touches the file system. When a prompt is
//! confirmed it hands back a request; the driver carries it out and reports
//! how it ended.

use crate::model::FileRequestView;
use vstd::prelude::*;

verus! {

/// One file operation for the driver to carry out.
#[derive(Debug, PartialEq, Eq)]
pub enum FileRequest {
    /// Write `contents`, as they are, to the file at `path`.
    Write { path: String, contents: String },
    /// Read the whole file at `path` as text.
    Read { path: String },
}

impl View for FileRequest {
    type V = FileRequestView;

    open spec fn view(&self) -> FileRequestView {
        match self {
            FileRequest::Write { path, contents } => FileRequestView::Write {
                path: path@,
                contents: contents@,
            },
            FileRequest::Read { path } => FileRequestView::Read { path: path@ },
        }
    }
}

impl DeepView for FileRequest {
    type V = FileRequestView;

    open spec fn deep_view(&self) -> FileRequestView {
        self@
    }
}

} // verus!
