use vstd::prelude::*;

verus! {

/// Why a download did not succeed.
///
/// The first five kinds belong to a single task and never leave it: the
/// batch records them and carries on. `Infrastructure` belongs to the batch
/// as a whole and is the only kind that ends it.
#[derive(Debug, PartialEq, Eq)]
pub enum DownloadError {
    /// The request could not be sent, or no response headers came back.
    Request(String),
    /// The response declared no content length.
    MissingLength,
    /// The destination has no file name to label the transfer with.
    InvalidDestination,
    /// The destination file could not be created.
    Io(String),
    /// A chunk could not be read from the response or written to the file.
    Stream(String),
    /// The batch could not be set up or torn down.
    Infrastructure(String),
}

/// The mathematical value of a [`DownloadError`].
pub enum ErrorView {
    Request(Seq<char>),
    MissingLength,
    InvalidDestination,
    Io(Seq<char>),
    Stream(Seq<char>),
    Infrastructure(Seq<char>),
}

impl ErrorView {
    /// The text shown to the user for this error.
    pub open spec fn message(self) -> Seq<char> {
        match self {
            ErrorView::Request(reason) => reason,
            ErrorView::MissingLength => "Failed to get file length"@,
            ErrorView::InvalidDestination => "Invalid filename"@,
            ErrorView::Io(reason) => reason,
            ErrorView::Stream(reason) => reason,
            ErrorView::Infrastructure(reason) => reason,
        }
    }

    /// Whether the error belongs to one task, so that the batch survives it.
    pub open spec fn task_level(self) -> bool {
        !(self is Infrastructure)
    }
}

impl View for DownloadError {
    type V = ErrorView;

    open spec fn view(&self) -> ErrorView {
        match self {
            DownloadError::Request(reason) => ErrorView::Request(reason@),
            DownloadError::MissingLength => ErrorView::MissingLength,
            DownloadError::InvalidDestination => ErrorView::InvalidDestination,
            DownloadError::Io(reason) => ErrorView::Io(reason@),
            DownloadError::Stream(reason) => ErrorView::Stream(reason@),
            DownloadError::Infrastructure(reason) => ErrorView::Infrastructure(reason@),
        }
    }
}

impl DownloadError {
    /// The text shown to the user for this error.
    pub fn message(&self) -> (text: String)
        ensures
            text@ == self@.message(),
    {
        match self {
            DownloadError::Request(reason) => reason.clone(),
            DownloadError::MissingLength => "Failed to get file length".to_owned(),
            DownloadError::InvalidDestination => "Invalid filename".to_owned(),
            DownloadError::Io(reason) => reason.clone(),
            DownloadError::Stream(reason) => reason.clone(),
            DownloadError::Infrastructure(reason) => reason.clone(),
        }
    }

    /// Whether the error belongs to one task, so that the batch survives it.
    pub fn is_task_level(&self) -> (yes: bool)
        ensures
            yes == self@.task_level(),
    {
        match self {
            DownloadError::Infrastructure(_) => false,
            _ => true,
        }
    }
}

} // verus!
