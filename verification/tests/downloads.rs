use local_stt::downloads::{answer, done, DownloaderOrder, DownloaderQuestion};
use local_stt::error::{DownloaderError, Error};
use local_stt::plugin::LocalStt;
use local_stt::model::{
    ensure_stt_model, server_type, DownloadProgressPayload, LocalModel, ServerType,
};

fn text(s: &str) -> String {
    s.to_string()
}

fn am() -> LocalModel {
    LocalModel::Am(text("parakeet"))
}

fn stt_models() -> Vec<LocalModel> {
    vec![am(), LocalModel::Whisper(text("tiny")), LocalModel::Cactus(text("small"))]
}

fn other_models() -> Vec<LocalModel> {
    vec![LocalModel::GgufLlm(text("llama")), LocalModel::CactusLlm(text("lfm"))]
}

fn bad_url() -> Error {
    Error::ModelDownloaderError(DownloaderError::OperationFailed(text(
        "Download URL must start with http:// or https://",
    )))
}

#[test]
fn only_speech_models_are_accepted() {
    for model in stt_models() {
        assert_eq!(ensure_stt_model(&model), Ok(()));
    }
    for model in other_models() {
        assert_eq!(ensure_stt_model(&model), Err(Error::UnsupportedModelType));
        assert_eq!(server_type(&model), Err(Error::UnsupportedModelType));
    }
}

#[test]
fn each_model_has_its_kind_of_server() {
    assert_eq!(server_type(&am()), Ok(ServerType::External));
    assert_eq!(server_type(&LocalModel::Whisper(text("tiny"))), Ok(ServerType::Internal));
    assert_eq!(server_type(&LocalModel::Cactus(text("small"))), Ok(ServerType::Internal));
}

#[test]
fn requests_about_speech_models_reach_the_downloader() {
    for model in stt_models() {
        let m = || model.clone();
        assert_eq!(
            LocalStt::is_model_downloaded(&model),
            Ok(DownloaderQuestion::IsDownloaded(m()))
        );
        assert_eq!(LocalStt::cancel_download(m()), Ok(DownloaderQuestion::CancelDownload(m())));
        assert_eq!(
            LocalStt::is_model_downloading(&model),
            Ok(DownloaderQuestion::IsDownloading(m()))
        );
        assert_eq!(LocalStt::download_model(m()), Ok(DownloaderOrder::Download(m())));
        assert_eq!(LocalStt::delete_model(&model), Ok(DownloaderOrder::Delete(m())));
    }
}

#[test]
fn requests_about_other_models_are_refused() {
    for model in other_models() {
        let refused = || Err(Error::UnsupportedModelType);
        assert_eq!(LocalStt::is_model_downloaded(&model), refused());
        assert_eq!(LocalStt::cancel_download(model.clone()), refused());
        assert_eq!(LocalStt::is_model_downloading(&model), refused());
        let refused = || Err(Error::UnsupportedModelType);
        assert_eq!(LocalStt::download_model(model.clone()), refused());
        assert_eq!(LocalStt::delete_model(&model), refused());
        assert_eq!(
            LocalStt::download_model_from_url(model.clone(), text("https://a/b")),
            refused()
        );
        assert_eq!(LocalStt::download_model_from_url(model.clone(), text("ftp://a")), refused());
    }
}

#[test]
fn download_addresses_are_trimmed() {
    for url in ["https://host/model.bin", "http://host/model.bin"] {
        assert_eq!(
            LocalStt::download_model_from_url(am(), format!(" \t{url}\n")),
            Ok(DownloaderOrder::DownloadFromUrl(am(), text(url)))
        );
        assert_eq!(
            LocalStt::download_model_from_url(am(), text(url)),
            Ok(DownloaderOrder::DownloadFromUrl(am(), text(url)))
        );
    }
}

#[test]
fn addresses_of_other_kinds_are_refused() {
    for url in ["", "   ", "ftp://host", "host/http://", "HTTPS://host", "https:/host", "http:host"]
    {
        assert_eq!(LocalStt::download_model_from_url(am(), text(url)), Err(bad_url()));
    }
}

#[test]
fn a_bare_scheme_is_enough() {
    assert_eq!(
        LocalStt::download_model_from_url(am(), text("http://")),
        Ok(DownloaderOrder::DownloadFromUrl(am(), text("http://")))
    );
}

#[test]
fn replies_of_the_downloader_are_passed_on() {
    assert_eq!(answer(Ok(true)), Ok(true));
    assert_eq!(answer(Ok(false)), Ok(false));
    assert_eq!(done(Ok(())), Ok(()));
    assert_eq!(
        answer(Err(DownloaderError::Other(text("offline")))),
        Err(Error::ModelDownloaderError(DownloaderError::Other(text("offline"))))
    );
    assert_eq!(
        done(Err(DownloaderError::OperationFailed(text("full")))),
        Err(Error::ModelDownloaderError(DownloaderError::OperationFailed(text("full"))))
    );
}

#[test]
fn progress_is_told_with_its_model() {
    let payload = DownloadProgressPayload::new(&am(), 42u8);
    assert_eq!(payload, DownloadProgressPayload { model: am(), status: 42u8 });
}

#[test]
fn models_are_equal_by_kind_and_identifier() {
    assert!(am() == LocalModel::Am(text("parakeet")));
    assert!(am() != LocalModel::Am(text("whisper")));
    assert!(am() != LocalModel::Whisper(text("parakeet")));
}
