//! What holds of the requests that the plugin serves, whatever they are about.

use vstd::prelude::*;

use crate::downloads::{answer, done, DownloaderOrder, DownloaderQuestion};
use crate::error::{DownloaderError, Error};
use crate::health::HealthSource;
use crate::location::{is_app_root, Location, Root};
use crate::model::{LocalModel, Platform, ServerType};
use crate::plugin::LocalStt;
use crate::servers::{LookupStep, QueryExternal, QueryInternal, ServersStep, StopStep};
use crate::settings::{normalize_models_base, read_custom_models_base, LocalSttSettings, PersistStep};
use crate::start::StartStep;
use crate::text::{
    is_blank, is_core_of, outer_white_space_is_dropped, trimmed, trimming_leaves_the_core,
};

verus! {

/// Every speech model is asked about under its own name, and the question is
/// the one that was put; a language model is refused.
pub proof fn questions_reach_the_downloader(
    model: LocalModel,
    downloaded: Result<DownloaderQuestion, Error>,
    cancelled: Result<DownloaderQuestion, Error>,
    downloading: Result<DownloaderQuestion, Error>,
)
    requires
        call_ensures(LocalStt::is_model_downloaded, (&model,), downloaded),
        call_ensures(LocalStt::cancel_download, (model,), cancelled),
        call_ensures(LocalStt::is_model_downloading, (&model,), downloading),
    ensures
        model is Am || model is Whisper || model is Cactus ==> {
            &&& downloaded matches Ok(DownloaderQuestion::IsDownloaded(m)) && m.deep_view()
                == model.deep_view()
            &&& cancelled matches Ok(DownloaderQuestion::CancelDownload(m)) && m.deep_view()
                == model.deep_view()
            &&& downloading matches Ok(DownloaderQuestion::IsDownloading(m)) && m.deep_view()
                == model.deep_view()
        },
        model is GgufLlm || model is CactusLlm ==> {
            &&& downloaded matches Err(Error::UnsupportedModelType)
            &&& cancelled matches Err(Error::UnsupportedModelType)
            &&& downloading matches Err(Error::UnsupportedModelType)
        },
{
}

/// An order to download or delete a speech model is about that model; a
/// language model is refused.
pub proof fn orders_reach_the_downloader(
    model: LocalModel,
    download: Result<DownloaderOrder, Error>,
    delete: Result<DownloaderOrder, Error>,
)
    requires
        call_ensures(LocalStt::download_model, (model,), download),
        call_ensures(LocalStt::delete_model, (&model,), delete),
    ensures
        model is Am || model is Whisper || model is Cactus ==> {
            &&& download matches Ok(DownloaderOrder::Download(m)) && m.deep_view()
                == model.deep_view()
            &&& delete matches Ok(DownloaderOrder::Delete(m)) && m.deep_view() == model.deep_view()
        },
        model is GgufLlm || model is CactusLlm ==> {
            &&& download matches Err(Error::UnsupportedModelType)
            &&& delete matches Err(Error::UnsupportedModelType)
        },
{
}

/// Every speech model can be downloaded from every address that begins with
/// `https://` or `http://` once the white space around it is dropped: the
/// order names that model and exactly the rest of the address. With any other
/// address, and for a language model, the request is refused. No other order
/// is ever given.
pub proof fn web_addresses_are_accepted(
    model: LocalModel,
    url: String,
    r: Result<DownloaderOrder, Error>,
)
    requires
        call_ensures(LocalStt::download_model_from_url, (model, url), r),
    ensures
        ({
            let speech = model is Am || model is Whisper || model is Cactus;
            let web = "https://"@.is_prefix_of(trimmed(url@)) || "http://"@.is_prefix_of(
                trimmed(url@),
            );
            &&& speech && web ==> (r matches Ok(DownloaderOrder::DownloadFromUrl(m, address))
                && m.deep_view() == model.deep_view() && address@ == trimmed(url@))
            &&& speech && !web ==> (r matches Err(
                Error::ModelDownloaderError(DownloaderError::OperationFailed(reason)),
            ) && reason@ == "Download URL must start with http:// or https://"@)
            &&& !speech ==> r matches Err(Error::UnsupportedModelType)
        }),
        r is Ok ==> (r->Ok_0 matches DownloaderOrder::DownloadFromUrl(m, address) && m.deep_view()
            == model.deep_view() && is_core_of(address@, url@)),
{
    trimming_leaves_the_core(url@);
    reveal_strlit("https://");
    reveal_strlit("http://");
}

/// White space around an address makes no difference to a request.
pub proof fn outer_white_space_of_an_address_is_ignored(
    model: LocalModel,
    before: Seq<char>,
    url: String,
    after: Seq<char>,
    padded: String,
    r: Result<DownloaderOrder, Error>,
    s: Result<DownloaderOrder, Error>,
)
    requires
        is_blank(before),
        is_blank(after),
        padded@ == before + url@ + after,
        call_ensures(LocalStt::download_model_from_url, (model, url), r),
        call_ensures(LocalStt::download_model_from_url, (model, padded), s),
    ensures
        r is Ok <==> s is Ok,
        r matches Ok(order) ==> s->Ok_0.deep_view() == order.deep_view(),
        r matches Err(e) ==> s->Err_0.deep_view() == e.deep_view(),
{
    outer_white_space_is_dropped(before, url@, after);
}

/// The reply of the downloader is the answer; its failure is reported with
/// its own reason.
pub proof fn replies_are_the_answers(
    reply: Result<bool, DownloaderError>,
    told: Result<bool, Error>,
    carried_out: Result<(), DownloaderError>,
    confirmed: Result<(), Error>,
)
    requires
        call_ensures(answer, (reply,), told),
        call_ensures(done, (carried_out,), confirmed),
    ensures
        reply matches Ok(b) ==> told == Ok::<bool, Error>(b),
        reply matches Err(e) ==> told matches Err(Error::ModelDownloaderError(f)) && f.deep_view()
            == e.deep_view(),
        carried_out is Ok ==> confirmed is Ok,
        carried_out matches Err(e) ==> confirmed matches Err(Error::ModelDownloaderError(f))
            && f.deep_view() == e.deep_view(),
{
}

/// Failures of the downloader are told apart by their kind and reason.
pub proof fn failures_are_told_apart(a: DownloaderError, b: DownloaderError)
    ensures
        a.deep_view() == b.deep_view() <==> match (a, b) {
            (DownloaderError::OperationFailed(x), DownloaderError::OperationFailed(y)) => x@ == y@,
            (DownloaderError::Other(x), DownloaderError::Other(y)) => x@ == y@,
            _ => false,
        },
{
}

/// Errors are told apart by their kind and reason.
pub proof fn errors_are_told_apart(a: Error, b: Error)
    ensures
        a.deep_view() == b.deep_view() <==> match (a, b) {
            (Error::LocalSettingsFailed(x), Error::LocalSettingsFailed(y)) => x@ == y@,
            (Error::SupervisorNotFound, Error::SupervisorNotFound) => true,
            (Error::UnsupportedModelType, Error::UnsupportedModelType) => true,
            (Error::ServerStartFailed(x), Error::ServerStartFailed(y)) => x@ == y@,
            (Error::ServerStopFailed(x), Error::ServerStopFailed(y)) => x@ == y@,
            (Error::ModelNotDownloaded, Error::ModelNotDownloaded) => true,
            (Error::AmApiKeyNotSet, Error::AmApiKeyNotSet) => true,
            (Error::ModelDownloaderError(x), Error::ModelDownloaderError(y)) => x.deep_view()
                == y.deep_view(),
            _ => false,
        },
{
}

/// A path names no directory exactly if it is blank. Any other path names the
/// directory that is left without the white space around it.
pub proof fn paths_name_directories(path: Option<String>, r: Option<String>)
    requires
        call_ensures(normalize_models_base, (path,), r),
    ensures
        r is None <==> path is None || is_blank(path->0@),
        r matches Some(dir) ==> is_core_of(dir@, path->0@),
{
    if let Some(p) = path {
        trimming_leaves_the_core(p@);
    }
}

/// Whether settings name the directory `dir`: they are there, hold a path,
/// and `dir` is that path without the white space around it.
pub open spec fn settings_name(settings: Option<LocalSttSettings>, dir: Seq<char>) -> bool {
    settings is Some && settings->0.models_base is Some && is_core_of(
        dir,
        settings->0.models_base->0@,
    )
}

/// Whether settings name no directory: there are none, or they hold no path,
/// or a blank one.
pub open spec fn settings_name_nothing(settings: Option<LocalSttSettings>) -> bool {
    settings is None || settings->0.models_base is None || is_blank(settings->0.models_base->0@)
}

/// Settings name the directory that their path names, and none exactly where
/// there is no path that is not blank.
pub proof fn settings_name_directories(settings: Option<LocalSttSettings>, r: Option<String>)
    requires
        call_ensures(read_custom_models_base, (&settings,), r),
    ensures
        r is None <==> settings_name_nothing(settings),
        r matches Some(dir) ==> settings_name(settings, dir@),
{
    if settings is Some && settings->0.models_base is Some {
        trimming_leaves_the_core(settings->0.models_base->0@);
    }
}

/// Whether the place that `names` lead to from `root` is where models are
/// kept: the directory that the settings of the plugin name or, where they
/// name none, the directory `models` of the application.
pub open spec fn is_models_base(root: Root, names: Seq<Seq<char>>, plugin: LocalStt) -> bool {
    if settings_name_nothing(plugin.settings) {
        is_app_root(root, plugin.global_base) && names == seq!["models"@]
    } else {
        root matches Root::Custom(dir) && settings_name(plugin.settings, dir@) && names.len() == 0
    }
}

/// Models are kept where the user chose, else with the application. The
/// speech models and those of the cactus engine have a directory each there.
pub proof fn models_have_their_places(
    plugin: LocalStt,
    base: Location,
    stt: Location,
    cactus: Location,
    standard: Location,
)
    requires
        call_ensures(LocalStt::models_base_dir, (&plugin,), base),
        call_ensures(LocalStt::models_dir, (&plugin,), stt),
        call_ensures(LocalStt::cactus_models_dir, (&plugin,), cactus),
        call_ensures(LocalStt::default_models_base_dir, (&plugin,), standard),
    ensures
        is_models_base(base.root, base.segments.deep_view(), plugin),
        stt.segments@.len() > 0,
        is_models_base(stt.root, stt.segments.deep_view().drop_last(), plugin),
        stt.segments.deep_view().last() == "stt"@,
        cactus.segments@.len() > 0,
        is_models_base(cactus.root, cactus.segments.deep_view().drop_last(), plugin),
        cactus.segments.deep_view().last() == "cactus"@,
        is_app_root(standard.root, plugin.global_base),
        standard.segments.deep_view() == seq!["models"@],
{
    if plugin.settings is Some && plugin.settings->0.models_base is Some {
        trimming_leaves_the_core(plugin.settings->0.models_base->0@);
    }
    assert(stt.segments@.len() == stt.segments.deep_view().len());
    assert(cactus.segments@.len() == cactus.segments.deep_view().len());
    assert(settings_name_nothing(plugin.settings) ==> stt.segments.deep_view().drop_last()
        =~= seq!["models"@]);
    assert(settings_name_nothing(plugin.settings) ==> cactus.segments.deep_view().drop_last()
        =~= seq!["models"@]);
}

/// A choice is saved in the file `local-stt.json` of the application. What is
/// saved is the directory that the path names; a path that is missing or
/// blank is saved as none.
pub proof fn choices_are_saved_in_the_settings(
    plugin: LocalStt,
    path: Option<String>,
    r: PersistStep,
)
    requires
        call_ensures(LocalStt::set_models_base_dir, (&plugin, path), r),
    ensures
        r matches PersistStep::CreateSettingsDir(step) && {
            &&& is_app_root(step.file.root, plugin.global_base)
            &&& step.file.segments.deep_view() == seq!["local-stt.json"@]
            &&& step.path is None <==> path is None || is_blank(path->0@)
            &&& step.path matches Some(dir) ==> is_core_of(dir@, path->0@)
        },
{
    if let Some(p) = path {
        trimming_leaves_the_core(p@);
    }
}

/// A start begins with the server of the model. The sidecar, or the engine
/// where the platform has it, is asked about the model; without the engine
/// there is nobody to ask, and the supervisor is wanted next. A language
/// model is refused.
pub proof fn a_start_begins_with_the_server_of_the_model(
    platform: Platform,
    model: LocalModel,
    r: StartStep,
)
    requires
        call_ensures(LocalStt::start_server, (platform, model), r),
    ensures
        model is Am ==> (r matches StartStep::QueryHealth(q) && q.source is External
            && q.model.deep_view() == model.deep_view() && q.platform == platform),
        model is Whisper && platform.whisper_cpp ==> (r matches StartStep::QueryHealth(q)
            && q.source is Internal && q.model.deep_view() == model.deep_view() && q.platform
            == platform),
        model is Cactus && platform.aarch64 ==> (r matches StartStep::QueryHealth(q)
            && q.source is Internal2 && q.model.deep_view() == model.deep_view() && q.platform
            == platform),
        model is Whisper && !platform.whisper_cpp || model is Cactus && !platform.aarch64
            ==> (r matches StartStep::GetSupervisor(q) && q.model.deep_view() == model.deep_view()
            && q.platform == platform),
        model is GgufLlm || model is CactusLlm ==> r matches StartStep::Done(
            Err(Error::UnsupportedModelType),
        ),
{
}

/// A look at the server of a model asks that server, one at every server asks
/// the first that the platform has, and what is to be stopped is what was
/// asked for.
pub proof fn requests_about_servers_begin_as_asked(
    platform: Platform,
    model: LocalModel,
    one: LookupStep,
    all: ServersStep,
    server_type: Option<ServerType>,
    stop: StopStep,
)
    requires
        call_ensures(LocalStt::get_server_for_model, (platform, &model), one),
        call_ensures(LocalStt::get_servers, (platform,), all),
        call_ensures(LocalStt::stop_server, (server_type,), stop),
    ensures
        model is Am ==> one == LookupStep::Query(HealthSource::External),
        model is Whisper && platform.whisper_cpp ==> one == LookupStep::Query(
            HealthSource::Internal,
        ),
        model is Cactus && platform.aarch64 ==> one == LookupStep::Query(HealthSource::Internal2),
        model is Whisper && !platform.whisper_cpp || model is Cactus && !platform.aarch64
            ==> one matches LookupStep::Done(Ok(None)),
        model is GgufLlm || model is CactusLlm ==> one matches LookupStep::Done(
            Err(Error::UnsupportedModelType),
        ),
        platform.whisper_cpp ==> all == ServersStep::QueryInternal(QueryInternal { platform }),
        !platform.whisper_cpp && platform.aarch64 ==> all is QueryInternal2,
        !platform.whisper_cpp && !platform.aarch64 ==> all == ServersStep::QueryExternal(
            QueryExternal { internal: None },
        ),
        stop matches StopStep::FindSupervisor(find) && find.server_type == server_type,
{
}

/// A supervisor that runs is handed out as it is.
pub proof fn a_running_supervisor_is_handed_out<S>(supervisor: Option<S>, r: Result<S, Error>)
    requires
        call_ensures(LocalStt::get_supervisor::<S>, (supervisor,), r),
    ensures
        r is Ok <==> supervisor is Some,
        supervisor matches Some(s) ==> r == Ok::<S, Error>(s),
        r is Err ==> r->Err_0 is SupervisorNotFound,
{
}

} // verus!
