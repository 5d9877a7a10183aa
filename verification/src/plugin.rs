//! The requests that the plugin serves.

use std::path::PathBuf;

use vstd::prelude::*;

use crate::downloads::{
    download_from_url, guard, stt_only, url_call, DownloaderOrder, DownloaderQuestion, OrderView,
    QuestionView,
};
use crate::error::{result_view, Error, ErrorView};
use crate::location::{
    app_root_of, cactus_dir, data_dir_gave, default_models_base, default_models_base_at,
    engine_dirs_lie_inside_the_base, settings_path, settings_path_at, stt_dir, Location,
    LocationView, Root, RootView,
};
use crate::model::{is_stt, LocalModel, ModelView, Platform, ServerType};
use crate::servers::{
    look_at_servers, lookup_server, FindSupervisor, LookupStep, LookupStepView, ServersStep,
    ServersStepView, StopStep, StopStepView,
};
use crate::settings::{
    chosen_dir, normalize_models_base, persist_models_base, read_custom_models_base, stored_dir,
    LocalSttSettings, PersistStep, PersistStepView, SettingsView,
};
use crate::start::{start_server, StartStep, StartStepView};

verus! {

/// What the plugin finds when a request comes in: the base directory of the
/// application, if its settings give one, and the settings of the plugin, if
/// there is a file and it can be understood.
#[derive(Debug, PartialEq, Eq)]
pub struct LocalStt {
    pub global_base: Option<String>,
    pub settings: Option<LocalSttSettings>,
}

/// Where models are kept: in the directory that the settings name, else in
/// the default one.
pub open spec fn models_base_of(
    global_base: Option<Seq<char>>,
    settings: Option<SettingsView>,
    data_dir: Option<PathBuf>,
) -> LocationView {
    match stored_dir(settings) {
        Some(path) => LocationView::at(RootView::Custom(path)),
        None => default_models_base_at(app_root_of(global_base, data_dir)),
    }
}

impl LocalStt {
    /// Where models are kept, if `data_dir` is the directory for user data.
    pub open spec fn models_base_with(self, data_dir: Option<PathBuf>) -> LocationView {
        models_base_of(self.global_base.deep_view(), self.settings.deep_view(), data_dir)
    }

    /// Whether `data_dir` is the directory for user data, as far as it
    /// matters to where models are kept: where nothing else names a place,
    /// it was looked up.
    pub open spec fn has_data_dir(self, data_dir: Option<PathBuf>) -> bool {
        stored_dir(self.settings.deep_view()) is None && self.global_base is None ==> data_dir_gave(
            data_dir,
        )
    }

    /// Where models are kept. The directory for user data is looked up only
    /// where nothing else names a place.
    pub fn models_base_dir(&self) -> (r: Location)
        ensures
            exists|d: Option<PathBuf>|
                self.has_data_dir(d) && r.deep_view() == #[trigger] self.models_base_with(d),
    {
        match read_custom_models_base(&self.settings) {
            Some(path) => {
                let r = Location::at(Root::Custom(path));
                assert(r.deep_view() == self.models_base_with(None));
                r
            },
            None => {
                let r = default_models_base(&self.global_base);
                let ghost d = choose|d: Option<PathBuf>|
                    (self.global_base is None ==> data_dir_gave(d)) && r.deep_view()
                        == default_models_base_at(
                        #[trigger] app_root_of(self.global_base.deep_view(), d),
                    );
                assert(r.deep_view() == self.models_base_with(d));
                r
            },
        }
    }

    /// The directory of the speech-to-text models.
    pub fn models_dir(&self) -> (r: Location)
        ensures
            exists|d: Option<PathBuf>|
                self.has_data_dir(d) && r.deep_view() == stt_dir(
                    #[trigger] self.models_base_with(d),
                ),
    {
        self.models_base_dir().join("stt")
    }

    /// The directory of the models of the cactus engine.
    pub fn cactus_models_dir(&self) -> (r: Location)
        ensures
            exists|d: Option<PathBuf>|
                self.has_data_dir(d) && r.deep_view() == cactus_dir(
                    #[trigger] self.models_base_with(d),
                ),
    {
        self.models_base_dir().join("cactus")
    }

    /// Where models are kept unless the user chose another directory.
    pub fn default_models_base_dir(&self) -> (r: Location)
        ensures
            exists|d: Option<PathBuf>|
                (self.global_base is None ==> data_dir_gave(d)) && r.deep_view()
                    == default_models_base_at(
                    #[trigger] app_root_of(self.global_base.deep_view(), d),
                ),
    {
        default_models_base(&self.global_base)
    }

    /// Saves the directory that models are kept in. White space around the
    /// path is dropped; without a path, or with a blank one, the choice is
    /// forgotten.
    pub fn set_models_base_dir(&self, path: Option<String>) -> (r: PersistStep)
        ensures
            exists|d: Option<PathBuf>|
                (self.global_base is None ==> data_dir_gave(d)) && r.deep_view() == (
                PersistStepView::CreateSettingsDir {
                    file: settings_path_at(
                        #[trigger] app_root_of(self.global_base.deep_view(), d),
                    ),
                    path: chosen_dir(path.deep_view()),
                }),
    {
        persist_models_base(settings_path(&self.global_base), normalize_models_base(path))
    }

    /// The supervisor of the servers, where there is one.
    pub fn get_supervisor<S>(supervisor: Option<S>) -> (r: Result<S, Error>)
        ensures
            match supervisor {
                Some(s) => r == Ok::<S, Error>(s),
                None => r == Err::<S, Error>(Error::SupervisorNotFound),
            },
    {
        match supervisor {
            Some(s) => Ok(s),
            None => Err(Error::SupervisorNotFound),
        }
    }

    /// Asks whether `model` is downloaded.
    pub fn is_model_downloaded(model: &LocalModel) -> (r: Result<DownloaderQuestion, Error>)
        ensures
            result_view(r) == stt_only(
                model.deep_view(),
                QuestionView::IsDownloaded(model.deep_view()),
            ),
    {
        guard(model, DownloaderQuestion::IsDownloaded(model.clone()))
    }

    /// Starts the server of `model`.
    pub fn start_server(platform: Platform, model: LocalModel) -> (r: StartStep)
        ensures
            r.deep_view() == StartStepView::first(model.deep_view(), platform),
    {
        start_server(model, platform)
    }

    /// Stops the server of the given kind, or every server.
    pub fn stop_server(server_type: Option<ServerType>) -> (r: StopStep)
        ensures
            r.deep_view() == (StopStepView::FindSupervisor { server_type }),
    {
        StopStep::FindSupervisor(FindSupervisor { server_type })
    }

    /// Looks at the server of `model`.
    pub fn get_server_for_model(platform: Platform, model: &LocalModel) -> (r: LookupStep)
        ensures
            r.deep_view() == LookupStepView::first(model.deep_view(), platform),
    {
        lookup_server(model, platform)
    }

    /// Looks at every server.
    pub fn get_servers(platform: Platform) -> (r: ServersStep)
        ensures
            r.deep_view() == ServersStepView::first(platform),
    {
        look_at_servers(platform)
    }

    /// Downloads `model`.
    pub fn download_model(model: LocalModel) -> (r: Result<DownloaderOrder, Error>)
        ensures
            result_view(r) == stt_only(
                model.deep_view(),
                OrderView::Download(model.deep_view()),
            ),
    {
        guard(&model, DownloaderOrder::Download(model.clone()))
    }

    /// Downloads `model` from `url`.
    pub fn download_model_from_url(model: LocalModel, url: String) -> (r: Result<
        DownloaderOrder,
        Error,
    >)
        ensures
            result_view(r) == url_call(model.deep_view(), url@),
    {
        download_from_url(model, url)
    }

    /// Stops downloading `model`.
    pub fn cancel_download(model: LocalModel) -> (r: Result<DownloaderQuestion, Error>)
        ensures
            result_view(r) == stt_only(
                model.deep_view(),
                QuestionView::CancelDownload(model.deep_view()),
            ),
    {
        guard(&model, DownloaderQuestion::CancelDownload(model.clone()))
    }

    /// Asks whether `model` is being downloaded.
    pub fn is_model_downloading(model: &LocalModel) -> (r: Result<DownloaderQuestion, Error>)
        ensures
            result_view(r) == stt_only(
                model.deep_view(),
                QuestionView::IsDownloading(model.deep_view()),
            ),
    {
        guard(model, DownloaderQuestion::IsDownloading(model.clone()))
    }

    /// Deletes `model`.
    pub fn delete_model(model: &LocalModel) -> (r: Result<DownloaderOrder, Error>)
        ensures
            result_view(r) == stt_only(
                model.deep_view(),
                OrderView::Delete(model.deep_view()),
            ),
    {
        guard(model, DownloaderOrder::Delete(model.clone()))
    }
}

/// A request about a model that does not transcribe speech is refused at
/// once, whatever is asked: no server and no downloader hears of it.
pub proof fn requests_about_other_models_are_refused(
    model: ModelView,
    platform: Platform,
    url: Seq<char>,
)
    requires
        !is_stt(model),
    ensures
        StartStepView::first(model, platform) == StartStepView::Done(
            Err(ErrorView::UnsupportedModelType),
        ),
        LookupStepView::first(model, platform) == LookupStepView::Done(
            Err(ErrorView::UnsupportedModelType),
        ),
        forall|question: QuestionView| #[trigger]
            stt_only(model, question) == Err::<QuestionView, ErrorView>(
                ErrorView::UnsupportedModelType,
            ),
        forall|order: OrderView| #[trigger]
            stt_only(model, order) == Err::<OrderView, ErrorView>(
                ErrorView::UnsupportedModelType,
            ),
        url_call(model, url) == Err::<OrderView, ErrorView>(ErrorView::UnsupportedModelType),
{
}

/// Where models are kept does not depend on the directory for user data if
/// the user chose a place or the application has a base directory.
pub proof fn a_named_place_needs_no_data_dir(
    global_base: Option<Seq<char>>,
    settings: Option<SettingsView>,
    data_dir: Option<PathBuf>,
    other: Option<PathBuf>,
)
    requires
        stored_dir(settings) is Some || global_base is Some,
    ensures
        models_base_of(global_base, settings, data_dir) == models_base_of(
            global_base,
            settings,
            other,
        ),
{
}

/// The directories of the two engines are different places in the same
/// directory, the one that models are kept in. `data_dir` and `other` are
/// what the two requests found as the directory for user data; they matter
/// only where neither the user nor the application names a place.
pub proof fn engine_dirs_are_siblings(
    global_base: Option<Seq<char>>,
    settings: Option<SettingsView>,
    data_dir: Option<PathBuf>,
    other: Option<PathBuf>,
)
    requires
        stored_dir(settings) is Some || global_base is Some || data_dir == other,
    ensures
        ({
            let base = models_base_of(global_base, settings, data_dir);
            let stt = stt_dir(base);
            let cactus = cactus_dir(models_base_of(global_base, settings, other));
            &&& stt.parent() == Some(base)
            &&& cactus.parent() == Some(base)
            &&& stt != cactus
        }),
{
    engine_dirs_lie_inside_the_base(models_base_of(global_base, settings, data_dir));
}

} // verus!
