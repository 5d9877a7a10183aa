//! Requests to the downloader of models.

use vstd::prelude::*;

use crate::error::{done_view, result_view, DownloaderError, DownloaderErrorView, Error, ErrorView};
use crate::model::{ensure_stt_model, is_stt, LocalModel, ModelView};
use crate::text::{starts_with, trimmed};

verus! {

/// A request that the downloader answers by yes or no.
#[derive(Debug, PartialEq, Eq)]
pub enum DownloaderQuestion {
    /// Is the model downloaded?
    IsDownloaded(LocalModel),
    /// Stop downloading the model. Was it being downloaded?
    CancelDownload(LocalModel),
    /// Is the model being downloaded?
    IsDownloading(LocalModel),
}

/// The value of a [`DownloaderQuestion`].
pub enum QuestionView {
    IsDownloaded(ModelView),
    CancelDownload(ModelView),
    IsDownloading(ModelView),
}

impl DeepView for DownloaderQuestion {
    type V = QuestionView;

    open spec fn deep_view(&self) -> QuestionView {
        match self {
            DownloaderQuestion::IsDownloaded(m) => QuestionView::IsDownloaded(m.deep_view()),
            DownloaderQuestion::CancelDownload(m) => QuestionView::CancelDownload(m.deep_view()),
            DownloaderQuestion::IsDownloading(m) => QuestionView::IsDownloading(m.deep_view()),
        }
    }
}

/// A request that the downloader carries out or fails at.
#[derive(Debug, PartialEq, Eq)]
pub enum DownloaderOrder {
    /// Download the model.
    Download(LocalModel),
    /// Download the model from this address.
    DownloadFromUrl(LocalModel, String),
    /// Delete the model.
    Delete(LocalModel),
}

/// The value of a [`DownloaderOrder`].
pub enum OrderView {
    Download(ModelView),
    DownloadFromUrl(ModelView, Seq<char>),
    Delete(ModelView),
}

impl DeepView for DownloaderOrder {
    type V = OrderView;

    open spec fn deep_view(&self) -> OrderView {
        match self {
            DownloaderOrder::Download(m) => OrderView::Download(m.deep_view()),
            DownloaderOrder::DownloadFromUrl(m, url) => OrderView::DownloadFromUrl(
                m.deep_view(),
                url@,
            ),
            DownloaderOrder::Delete(m) => OrderView::Delete(m.deep_view()),
        }
    }
}

/// `call` goes to the downloader for a model that transcribes speech; a
/// request about another model is refused.
pub open spec fn stt_only<C>(model: ModelView, call: C) -> Result<C, ErrorView> {
    if is_stt(model) {
        Ok(call)
    } else {
        Err(ErrorView::UnsupportedModelType)
    }
}

/// Hands on `call`, which is about `model`, if the model transcribes speech.
pub(crate) fn guard<C: DeepView>(model: &LocalModel, call: C) -> (r: Result<C, Error>)
    ensures
        result_view(r) == stt_only(model.deep_view(), call.deep_view()),
{
    match ensure_stt_model(model) {
        Ok(_) => Ok(call),
        Err(e) => Err(e),
    }
}

/// Whether models can be downloaded from `url`.
pub open spec fn is_download_url(url: Seq<char>) -> bool {
    "https://"@.is_prefix_of(url) || "http://"@.is_prefix_of(url)
}

/// The request to download `model` from `url`: white space around the
/// address is dropped, and the rest must begin like a web address.
pub open spec fn url_call(model: ModelView, url: Seq<char>) -> Result<OrderView, ErrorView> {
    if !is_stt(model) {
        Err(ErrorView::UnsupportedModelType)
    } else if !is_download_url(trimmed(url)) {
        Err(
            ErrorView::ModelDownloaderError(
                DownloaderErrorView::OperationFailed(
                    "Download URL must start with http:// or https://"@,
                ),
            ),
        )
    } else {
        Ok(OrderView::DownloadFromUrl(model, trimmed(url)))
    }
}

/// The request to download `model` from `url`.
pub fn download_from_url(model: LocalModel, url: String) -> (r: Result<DownloaderOrder, Error>)
    ensures
        result_view(r) == url_call(model.deep_view(), url@),
{
    match ensure_stt_model(&model) {
        Ok(_) => {
            let url = url.as_str().trim().to_string();
            if !(starts_with(url.as_str(), "https://") || starts_with(url.as_str(), "http://")) {
                return Err(
                    Error::ModelDownloaderError(
                        DownloaderError::OperationFailed(
                            "Download URL must start with http:// or https://".to_string(),
                        ),
                    ),
                );
            }
            Ok(DownloaderOrder::DownloadFromUrl(model, url))
        },
        Err(e) => Err(e),
    }
}

/// A failure of the downloader, as this library reports it.
pub open spec fn reported<T>(reply: Result<T, DownloaderErrorView>) -> Result<T, ErrorView> {
    match reply {
        Ok(t) => Ok(t),
        Err(e) => Err(ErrorView::ModelDownloaderError(e)),
    }
}

/// The answer to a question, from the reply of the downloader.
pub fn answer(reply: Result<bool, DownloaderError>) -> (r: Result<bool, Error>)
    ensures
        result_view(r) == reported(result_view(reply)),
{
    match reply {
        Ok(b) => Ok(b),
        Err(e) => Err(Error::ModelDownloaderError(e)),
    }
}

/// The answer to an order, from the reply of the downloader.
pub fn done(reply: Result<(), DownloaderError>) -> (r: Result<(), Error>)
    ensures
        done_view(r) == reported(done_view(reply)),
{
    match reply {
        Ok(_) => Ok(()),
        Err(e) => Err(Error::ModelDownloaderError(e)),
    }
}

/// An address that was accepted once is accepted again as it is: the address
/// that is handed to the downloader is already without outer white space.
pub proof fn accepted_urls_are_stable(model: ModelView, url: Seq<char>, handed_on: Seq<char>)
    requires
        url_call(model, url) == Ok::<OrderView, ErrorView>(
            OrderView::DownloadFromUrl(model, handed_on),
        ),
    ensures
        is_download_url(handed_on),
        url_call(model, handed_on) == url_call(model, url),
{
    crate::text::trimmed_twice(url);
}

} // verus!
