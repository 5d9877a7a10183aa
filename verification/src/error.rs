//! The errors that the library reports.

use vstd::prelude::*;

verus! {

/// What the model downloader reports when a request fails.
#[derive(Debug, PartialEq, Eq)]
pub enum DownloaderError {
    /// The downloader could not carry out the operation, for the given reason.
    OperationFailed(String),
    /// Any other failure, as the downloader words it.
    Other(String),
}

/// The value of a [`DownloaderError`].
pub enum DownloaderErrorView {
    OperationFailed(Seq<char>),
    Other(Seq<char>),
}

impl DeepView for DownloaderError {
    type V = DownloaderErrorView;

    open spec fn deep_view(&self) -> DownloaderErrorView {
        match self {
            DownloaderError::OperationFailed(m) => DownloaderErrorView::OperationFailed(m@),
            DownloaderError::Other(m) => DownloaderErrorView::Other(m@),
        }
    }
}

/// Why a request of the plugin failed.
#[derive(Debug, PartialEq, Eq)]
pub enum Error {
    /// The settings file or a directory could not be written.
    LocalSettingsFailed(String),
    /// No supervisor of the servers is running.
    SupervisorNotFound,
    /// The model does not transcribe speech, or not on this platform.
    UnsupportedModelType,
    /// A server did not start.
    ServerStartFailed(String),
    /// A server did not stop.
    ServerStopFailed(String),
    /// The model has not been downloaded yet.
    ModelNotDownloaded,
    /// The key for the external server is missing or empty.
    AmApiKeyNotSet,
    /// The model downloader failed.
    ModelDownloaderError(DownloaderError),
}

/// The value of an [`Error`].
pub enum ErrorView {
    LocalSettingsFailed(Seq<char>),
    SupervisorNotFound,
    UnsupportedModelType,
    ServerStartFailed(Seq<char>),
    ServerStopFailed(Seq<char>),
    ModelNotDownloaded,
    AmApiKeyNotSet,
    ModelDownloaderError(DownloaderErrorView),
}

impl DeepView for Error {
    type V = ErrorView;

    open spec fn deep_view(&self) -> ErrorView {
        match self {
            Error::LocalSettingsFailed(m) => ErrorView::LocalSettingsFailed(m@),
            Error::SupervisorNotFound => ErrorView::SupervisorNotFound,
            Error::UnsupportedModelType => ErrorView::UnsupportedModelType,
            Error::ServerStartFailed(m) => ErrorView::ServerStartFailed(m@),
            Error::ServerStopFailed(m) => ErrorView::ServerStopFailed(m@),
            Error::ModelNotDownloaded => ErrorView::ModelNotDownloaded,
            Error::AmApiKeyNotSet => ErrorView::AmApiKeyNotSet,
            Error::ModelDownloaderError(e) => ErrorView::ModelDownloaderError(e.deep_view()),
        }
    }
}

/// The value of a result: that of its success or of its error.
pub open spec fn result_view<T: DeepView, E: DeepView>(r: Result<T, E>) -> Result<T::V, E::V> {
    match r {
        Ok(t) => Ok(t.deep_view()),
        Err(e) => Err(e.deep_view()),
    }
}

/// The value of a result whose success carries nothing.
pub open spec fn done_view<E: DeepView>(r: Result<(), E>) -> Result<(), E::V> {
    match r {
        Ok(_) => Ok(()),
        Err(e) => Err(e.deep_view()),
    }
}

} // verus!
