//! How the server of a model is started.
//!
//! Starting a server is a sequence of steps. Each step but the last names
//! work for the caller: to ask a server, stop the servers, find a port. The
//! caller hands the result to the step's `resume`, which gives the next step.

use vstd::prelude::*;

use crate::error::{done_view, result_view, DownloaderError, DownloaderErrorView, Error, ErrorView};
use crate::health::{health_for_model, health_source, HealthSource};
use crate::location::{cactus_dir, stt_dir, Location, LocationView};
use crate::model::{
    ensure_stt_model, is_stt, server_type, server_type_of, LocalModel, ModelView, Platform,
    ServerInfo, ServerInfoView, ServerType,
};

verus! {

/// The program that serves the models of an external server, with its
/// arguments.
#[derive(Debug, PartialEq, Eq)]
pub struct SidecarCommand {
    pub program: String,
    pub args: Vec<String>,
}

/// The value of a [`SidecarCommand`].
#[verifier::ext_equal]
pub struct SidecarCommandView {
    pub program: Seq<char>,
    pub args: Seq<Seq<char>>,
}

impl DeepView for SidecarCommand {
    type V = SidecarCommandView;

    open spec fn deep_view(&self) -> SidecarCommandView {
        SidecarCommandView { program: self.program@, args: self.args.deep_view() }
    }
}

/// The command that runs the sidecar: it serves whoever brings any token,
/// and is talkative where debug assertions are on.
pub open spec fn sidecar_command_of(debug_assertions: bool) -> SidecarCommandView {
    SidecarCommandView {
        program: "char-sidecar-stt"@,
        args: if debug_assertions {
            seq!["serve"@, "--any-token"@, "-v"@, "-d"@]
        } else {
            seq!["serve"@, "--any-token"@]
        },
    }
}

/// The command that runs the sidecar.
pub fn sidecar_command(debug_assertions: bool) -> (r: SidecarCommand)
    ensures
        r.deep_view() == sidecar_command_of(debug_assertions),
{
    let mut args: Vec<String> = Vec::new();
    args.push("serve".to_string());
    args.push("--any-token".to_string());
    if debug_assertions {
        args.push("-v".to_string());
        args.push("-d".to_string());
    }
    let r = SidecarCommand { program: "char-sidecar-stt".to_string(), args };
    assert(r.args.deep_view() =~= sidecar_command_of(debug_assertions).args);
    r
}

/// What the cactus engine is told about its cloud service; all else is left
/// at its default.
#[derive(Debug, PartialEq, Eq)]
pub struct CactusConfig {
    /// The address of the service.
    pub base_url: Option<String>,
    /// The headers that go with each request.
    pub headers: Vec<(String, String)>,
}

/// The value of a [`CactusConfig`].
#[verifier::ext_equal]
pub struct CactusConfigView {
    pub base_url: Option<Seq<char>>,
    pub headers: Seq<(Seq<char>, Seq<char>)>,
}

impl DeepView for CactusConfig {
    type V = CactusConfigView;

    open spec fn deep_view(&self) -> CactusConfigView {
        CactusConfigView { base_url: self.base_url.deep_view(), headers: self.headers.deep_view() }
    }
}

/// The cloud service at `base_url` learns the fingerprint of the device.
pub open spec fn cactus_config_of(
    base_url: Option<Seq<char>>,
    fingerprint: Seq<char>,
) -> CactusConfigView {
    CactusConfigView { base_url, headers: seq![("x-device-fingerprint"@, fingerprint)] }
}

/// What the cactus engine is told about its cloud service.
pub fn cactus_config(base_url: Option<String>, fingerprint: String) -> (r: CactusConfig)
    ensures
        r.deep_view() == cactus_config_of(base_url.deep_view(), fingerprint@),
{
    let mut headers: Vec<(String, String)> = Vec::new();
    headers.push(("x-device-fingerprint".to_string(), fingerprint));
    assert(headers.deep_view() =~= seq![("x-device-fingerprint"@, fingerprint@)]);
    CactusConfig { base_url, headers }
}

/// Ask `source` which model it runs.
#[derive(Debug, PartialEq, Eq)]
pub struct QueryHealth {
    pub model: LocalModel,
    pub platform: Platform,
    pub source: HealthSource,
}

/// Ask the downloader whether `model` is downloaded.
#[derive(Debug, PartialEq, Eq)]
pub struct CheckDownloaded {
    pub model: LocalModel,
    pub platform: Platform,
}

/// Find the supervisor of the servers.
#[derive(Debug, PartialEq, Eq)]
pub struct GetSupervisor {
    pub model: LocalModel,
    pub platform: Platform,
}

/// Have the supervisor stop every server.
#[derive(Debug, PartialEq, Eq)]
pub struct StopAll {
    pub model: LocalModel,
    pub platform: Platform,
}

/// Find where models are kept.
#[derive(Debug, PartialEq, Eq)]
pub struct ReadModelsBase {
    pub model: LocalModel,
    pub platform: Platform,
}

/// Find the address of the cloud service and the fingerprint of the device.
#[derive(Debug, PartialEq, Eq)]
pub struct ReadDevice {
    /// The identifier of the model for the cactus engine.
    pub model: String,
    pub cache_dir: Location,
}

/// Find the key for the external server.
#[derive(Debug, PartialEq, Eq)]
pub struct ReadApiKey {
    /// The identifier of the model for the external server.
    pub model: String,
    pub data_dir: Location,
    pub platform: Platform,
}

/// Find a free port on this machine.
#[derive(Debug, PartialEq, Eq)]
pub struct FindPort {
    pub model: String,
    pub data_dir: Location,
    pub am_key: String,
    pub platform: Platform,
}

/// Have the supervisor start the server of the whisper engine.
#[derive(Debug, PartialEq, Eq)]
pub struct StartInternal {
    /// The identifier of the model for the whisper engine.
    pub model: String,
    pub cache_dir: Location,
}

/// Have the supervisor start the server of the cactus engine.
#[derive(Debug, PartialEq, Eq)]
pub struct StartInternal2 {
    pub model: String,
    pub cache_dir: Location,
    pub config: CactusConfig,
}

/// Have the supervisor start the sidecar.
#[derive(Debug, PartialEq, Eq)]
pub struct StartExternal {
    pub model: String,
    pub data_dir: Location,
    pub am_key: String,
    pub port: u16,
    pub command: SidecarCommand,
}

/// Ask the server `source`, which was just started, for its address.
#[derive(Debug, PartialEq, Eq)]
pub struct QueryStarted {
    pub source: HealthSource,
}

/// What to do next to start the server of a model.
#[derive(Debug, PartialEq, Eq)]
pub enum StartStep {
    QueryHealth(QueryHealth),
    CheckDownloaded(CheckDownloaded),
    GetSupervisor(GetSupervisor),
    StopAll(StopAll),
    ReadModelsBase(ReadModelsBase),
    ReadDevice(ReadDevice),
    ReadApiKey(ReadApiKey),
    FindPort(FindPort),
    StartInternal(StartInternal),
    StartInternal2(StartInternal2),
    StartExternal(StartExternal),
    QueryStarted(QueryStarted),
    /// The answer: the address of the server.
    Done(Result<String, Error>),
}

/// The value of a [`StartStep`].
#[allow(inconsistent_fields)]
pub enum StartStepView {
    QueryHealth { model: ModelView, platform: Platform, source: HealthSource },
    CheckDownloaded { model: ModelView, platform: Platform },
    GetSupervisor { model: ModelView, platform: Platform },
    StopAll { model: ModelView, platform: Platform },
    ReadModelsBase { model: ModelView, platform: Platform },
    ReadDevice { model: Seq<char>, cache_dir: LocationView },
    ReadApiKey { model: Seq<char>, data_dir: LocationView, platform: Platform },
    FindPort {
        model: Seq<char>,
        data_dir: LocationView,
        am_key: Seq<char>,
        platform: Platform,
    },
    StartInternal { model: Seq<char>, cache_dir: LocationView },
    StartInternal2 { model: Seq<char>, cache_dir: LocationView, config: CactusConfigView },
    StartExternal {
        model: Seq<char>,
        data_dir: LocationView,
        am_key: Seq<char>,
        port: u16,
        command: SidecarCommandView,
    },
    QueryStarted { source: HealthSource },
    Done(Result<Seq<char>, ErrorView>),
}

impl DeepView for StartStep {
    type V = StartStepView;

    open spec fn deep_view(&self) -> StartStepView {
        match self {
            StartStep::QueryHealth(s) => StartStepView::QueryHealth {
                model: s.model.deep_view(),
                platform: s.platform,
                source: s.source,
            },
            StartStep::CheckDownloaded(s) => StartStepView::CheckDownloaded {
                model: s.model.deep_view(),
                platform: s.platform,
            },
            StartStep::GetSupervisor(s) => StartStepView::GetSupervisor {
                model: s.model.deep_view(),
                platform: s.platform,
            },
            StartStep::StopAll(s) => StartStepView::StopAll {
                model: s.model.deep_view(),
                platform: s.platform,
            },
            StartStep::ReadModelsBase(s) => StartStepView::ReadModelsBase {
                model: s.model.deep_view(),
                platform: s.platform,
            },
            StartStep::ReadDevice(s) => StartStepView::ReadDevice {
                model: s.model@,
                cache_dir: s.cache_dir.deep_view(),
            },
            StartStep::ReadApiKey(s) => StartStepView::ReadApiKey {
                model: s.model@,
                data_dir: s.data_dir.deep_view(),
                platform: s.platform,
            },
            StartStep::FindPort(s) => StartStepView::FindPort {
                model: s.model@,
                data_dir: s.data_dir.deep_view(),
                am_key: s.am_key@,
                platform: s.platform,
            },
            StartStep::StartInternal(s) => StartStepView::StartInternal {
                model: s.model@,
                cache_dir: s.cache_dir.deep_view(),
            },
            StartStep::StartInternal2(s) => StartStepView::StartInternal2 {
                model: s.model@,
                cache_dir: s.cache_dir.deep_view(),
                config: s.config.deep_view(),
            },
            StartStep::StartExternal(s) => StartStepView::StartExternal {
                model: s.model@,
                data_dir: s.data_dir.deep_view(),
                am_key: s.am_key@,
                port: s.port,
                command: s.command.deep_view(),
            },
            StartStep::QueryStarted(s) => StartStepView::QueryStarted { source: s.source },
            StartStep::Done(r) => StartStepView::Done(result_view(*r)),
        }
    }
}

impl StartStepView {
    /// The end of the attempt, with an error.
    pub open spec fn refused(e: ErrorView) -> StartStepView {
        StartStepView::Done(Err(e))
    }

    /// The first step for `model`: the server that could be running it is
    /// asked. Where this platform has no such server, there is nothing to
    /// ask; a model that does not transcribe speech is refused.
    pub open spec fn first(model: ModelView, platform: Platform) -> StartStepView {
        if !is_stt(model) {
            StartStepView::refused(ErrorView::UnsupportedModelType)
        } else {
            match health_source(model, platform) {
                Some(source) => StartStepView::QueryHealth { model, platform, source },
                None => StartStepView::after_health(model, platform, None),
            }
        }
    }

    /// What follows a report of the server for `model`. One that runs the
    /// model already gives the answer. Otherwise the supervisor is wanted; a
    /// model for an external server must be downloaded first.
    pub open spec fn after_health(
        model: ModelView,
        platform: Platform,
        info: Option<ServerInfoView>,
    ) -> StartStepView {
        if info is Some && info->0.model == Some(model) {
            match info->0.url {
                Some(url) => StartStepView::Done(Ok(url)),
                None => StartStepView::refused(
                    ErrorView::ServerStartFailed("missing_health_url"@),
                ),
            }
        } else {
            match server_type_of(model) {
                Some(ServerType::External) => StartStepView::CheckDownloaded { model, platform },
                Some(ServerType::Internal) => StartStepView::GetSupervisor { model, platform },
                None => StartStepView::refused(ErrorView::UnsupportedModelType),
            }
        }
    }

    /// What follows the answer of the downloader.
    pub open spec fn after_download_check(
        model: ModelView,
        platform: Platform,
        downloaded: Result<bool, DownloaderErrorView>,
    ) -> StartStepView {
        match downloaded {
            Ok(true) => StartStepView::GetSupervisor { model, platform },
            Ok(false) => StartStepView::refused(ErrorView::ModelNotDownloaded),
            Err(e) => StartStepView::refused(ErrorView::ModelDownloaderError(e)),
        }
    }

    /// What follows the search for the supervisor.
    pub open spec fn after_supervisor(
        model: ModelView,
        platform: Platform,
        found: bool,
    ) -> StartStepView {
        if found {
            StartStepView::StopAll { model, platform }
        } else {
            StartStepView::refused(ErrorView::SupervisorNotFound)
        }
    }

    /// What follows the attempt to stop every server: where models are kept
    /// must be known, except for a model that this platform cannot run.
    pub open spec fn after_stop(
        model: ModelView,
        platform: Platform,
        stopped: Result<(), Seq<char>>,
    ) -> StartStepView {
        match stopped {
            Ok(_) => if model is Am || model is Whisper && platform.whisper_cpp
                || platform.aarch64 {
                StartStepView::ReadModelsBase { model, platform }
            } else {
                StartStepView::refused(ErrorView::UnsupportedModelType)
            },
            Err(reason) => StartStepView::refused(ErrorView::ServerStopFailed(reason)),
        }
    }

    /// What follows once it is known where models are kept: the way of the
    /// engine that runs the model.
    pub open spec fn after_base(
        model: ModelView,
        platform: Platform,
        base: LocationView,
    ) -> StartStepView {
        match model {
            ModelView::Am(id) => StartStepView::ReadApiKey {
                model: id,
                data_dir: stt_dir(base),
                platform,
            },
            ModelView::Whisper(id) if platform.whisper_cpp => StartStepView::StartInternal {
                model: id,
                cache_dir: stt_dir(base),
            },
            ModelView::Cactus(id) if platform.aarch64 => StartStepView::ReadDevice {
                model: id,
                cache_dir: cactus_dir(base),
            },
            _ => StartStepView::refused(ErrorView::UnsupportedModelType),
        }
    }

    /// What follows the search for the key: one that is missing or empty
    /// ends the attempt.
    pub open spec fn after_key(
        model: Seq<char>,
        data_dir: LocationView,
        platform: Platform,
        key: Option<Seq<char>>,
    ) -> StartStepView {
        match key {
            Some(am_key) if am_key.len() > 0 => StartStepView::FindPort {
                model,
                data_dir,
                am_key,
                platform,
            },
            _ => StartStepView::refused(ErrorView::AmApiKeyNotSet),
        }
    }

    /// What follows the search for a free port.
    pub open spec fn after_port(
        model: Seq<char>,
        data_dir: LocationView,
        am_key: Seq<char>,
        platform: Platform,
        port: Option<u16>,
    ) -> StartStepView {
        match port {
            Some(port) => StartStepView::StartExternal {
                model,
                data_dir,
                am_key,
                port,
                command: sidecar_command_of(platform.debug_assertions),
            },
            None => StartStepView::refused(
                ErrorView::ServerStartFailed("failed_to_find_free_port"@),
            ),
        }
    }

    /// What follows the attempt to start the server `source`.
    pub open spec fn after_start(
        source: HealthSource,
        started: Result<(), Seq<char>>,
    ) -> StartStepView {
        match started {
            Ok(_) => StartStepView::QueryStarted { source },
            Err(reason) => StartStepView::refused(ErrorView::ServerStartFailed(reason)),
        }
    }

    /// The answer, from what the server reports once it was started.
    pub open spec fn after_started(info: Option<ServerInfoView>) -> StartStepView {
        match info {
            Some(ServerInfoView { url: Some(url), .. }) => StartStepView::Done(Ok(url)),
            _ => StartStepView::refused(ErrorView::ServerStartFailed("empty_health"@)),
        }
    }
}

/// The first step to start the server of `model`.
pub fn start_server(model: LocalModel, platform: Platform) -> (r: StartStep)
    ensures
        r.deep_view() == StartStepView::first(model.deep_view(), platform),
{
    match ensure_stt_model(&model) {
        Ok(_) => match health_for_model(&model, platform) {
            Some(source) => StartStep::QueryHealth(QueryHealth { model, platform, source }),
            None => with_health(model, platform, None),
        },
        Err(e) => StartStep::Done(Err(e)),
    }
}

/// The step that follows a report of the server for `model`.
fn with_health(model: LocalModel, platform: Platform, info: Option<ServerInfo>) -> (r: StartStep)
    ensures
        r.deep_view() == StartStepView::after_health(
            model.deep_view(),
            platform,
            info.deep_view(),
        ),
{
    if let Some(info) = info {
        if info.serves(&model) {
            return match info.url {
                Some(url) => StartStep::Done(Ok(url)),
                None => StartStep::Done(
                    Err(Error::ServerStartFailed("missing_health_url".to_string())),
                ),
            };
        }
    }
    match server_type(&model) {
        Ok(ServerType::External) => StartStep::CheckDownloaded(
            CheckDownloaded { model, platform },
        ),
        Ok(ServerType::Internal) => StartStep::GetSupervisor(GetSupervisor { model, platform }),
        Err(e) => StartStep::Done(Err(e)),
    }
}

impl QueryHealth {
    /// Takes what the server reported, if it reported anything.
    pub fn resume(self, info: Option<ServerInfo>) -> (r: StartStep)
        ensures
            r.deep_view() == StartStepView::after_health(
                self.model.deep_view(),
                self.platform,
                info.deep_view(),
            ),
    {
        with_health(self.model, self.platform, info)
    }
}

impl CheckDownloaded {
    /// Takes the answer of the downloader.
    pub fn resume(self, downloaded: Result<bool, DownloaderError>) -> (r: StartStep)
        ensures
            r.deep_view() == StartStepView::after_download_check(
                self.model.deep_view(),
                self.platform,
                result_view(downloaded),
            ),
    {
        match downloaded {
            Ok(true) => StartStep::GetSupervisor(
                GetSupervisor { model: self.model, platform: self.platform },
            ),
            Ok(false) => StartStep::Done(Err(Error::ModelNotDownloaded)),
            Err(e) => StartStep::Done(Err(Error::ModelDownloaderError(e))),
        }
    }
}

impl GetSupervisor {
    /// Takes whether there is a supervisor.
    pub fn resume(self, found: bool) -> (r: StartStep)
        ensures
            r.deep_view() == StartStepView::after_supervisor(
                self.model.deep_view(),
                self.platform,
                found,
            ),
    {
        if found {
            StartStep::StopAll(StopAll { model: self.model, platform: self.platform })
        } else {
            StartStep::Done(Err(Error::SupervisorNotFound))
        }
    }
}

impl StopAll {
    /// Takes whether the servers were stopped.
    pub fn resume(self, stopped: Result<(), String>) -> (r: StartStep)
        ensures
            r.deep_view() == StartStepView::after_stop(
                self.model.deep_view(),
                self.platform,
                done_view(stopped),
            ),
    {
        match stopped {
            Ok(_) => {
                let wanted = match &self.model {
                    LocalModel::Am(_) => true,
                    LocalModel::Whisper(_) => self.platform.whisper_cpp || self.platform.aarch64,
                    _ => self.platform.aarch64,
                };
                if wanted {
                    StartStep::ReadModelsBase(
                        ReadModelsBase { model: self.model, platform: self.platform },
                    )
                } else {
                    StartStep::Done(Err(Error::UnsupportedModelType))
                }
            },
            Err(reason) => StartStep::Done(Err(Error::ServerStopFailed(reason))),
        }
    }
}

impl ReadModelsBase {
    /// Takes where models are kept.
    pub fn resume(self, base: Location) -> (r: StartStep)
        ensures
            r.deep_view() == StartStepView::after_base(
                self.model.deep_view(),
                self.platform,
                base.deep_view(),
            ),
    {
        match self.model {
            LocalModel::Am(model) => StartStep::ReadApiKey(
                ReadApiKey { model, data_dir: base.join("stt"), platform: self.platform },
            ),
            LocalModel::Whisper(model) => if self.platform.whisper_cpp {
                StartStep::StartInternal(StartInternal { model, cache_dir: base.join("stt") })
            } else {
                StartStep::Done(Err(Error::UnsupportedModelType))
            },
            LocalModel::Cactus(model) => if self.platform.aarch64 {
                StartStep::ReadDevice(ReadDevice { model, cache_dir: base.join("cactus") })
            } else {
                StartStep::Done(Err(Error::UnsupportedModelType))
            },
            LocalModel::GgufLlm(_) | LocalModel::CactusLlm(_) => StartStep::Done(
                Err(Error::UnsupportedModelType),
            ),
        }
    }
}

impl ReadDevice {
    /// Takes the address of the cloud service, if it has one, and the
    /// fingerprint of the device.
    pub fn resume(self, base_url: Option<String>, fingerprint: String) -> (r: StartStep)
        ensures
            r.deep_view() == (StartStepView::StartInternal2 {
                model: self.model@,
                cache_dir: self.cache_dir.deep_view(),
                config: cactus_config_of(base_url.deep_view(), fingerprint@),
            }),
    {
        StartStep::StartInternal2(
            StartInternal2 {
                model: self.model,
                cache_dir: self.cache_dir,
                config: cactus_config(base_url, fingerprint),
            },
        )
    }
}

impl ReadApiKey {
    /// Takes the key, if there is one.
    pub fn resume(self, key: Option<String>) -> (r: StartStep)
        ensures
            r.deep_view() == StartStepView::after_key(
                self.model@,
                self.data_dir.deep_view(),
                self.platform,
                key.deep_view(),
            ),
    {
        if let Some(am_key) = key {
            if !am_key.as_str().is_empty() {
                return StartStep::FindPort(
                    FindPort {
                        model: self.model,
                        data_dir: self.data_dir,
                        am_key,
                        platform: self.platform,
                    },
                );
            }
        }
        StartStep::Done(Err(Error::AmApiKeyNotSet))
    }
}

impl FindPort {
    /// Takes the port, if one is free.
    pub fn resume(self, port: Option<u16>) -> (r: StartStep)
        ensures
            r.deep_view() == StartStepView::after_port(
                self.model@,
                self.data_dir.deep_view(),
                self.am_key@,
                self.platform,
                port,
            ),
    {
        match port {
            Some(port) => StartStep::StartExternal(
                StartExternal {
                    model: self.model,
                    data_dir: self.data_dir,
                    am_key: self.am_key,
                    port,
                    command: sidecar_command(self.platform.debug_assertions),
                },
            ),
            None => StartStep::Done(
                Err(Error::ServerStartFailed("failed_to_find_free_port".to_string())),
            ),
        }
    }
}

/// The step that follows the attempt to start the server `source`.
fn with_start(source: HealthSource, started: Result<(), String>) -> (r: StartStep)
    ensures
        r.deep_view() == StartStepView::after_start(source, done_view(started)),
{
    match started {
        Ok(_) => StartStep::QueryStarted(QueryStarted { source }),
        Err(reason) => StartStep::Done(Err(Error::ServerStartFailed(reason))),
    }
}

impl StartInternal {
    /// Takes whether the server was started.
    pub fn resume(self, started: Result<(), String>) -> (r: StartStep)
        ensures
            r.deep_view() == StartStepView::after_start(
                HealthSource::Internal,
                done_view(started),
            ),
    {
        with_start(HealthSource::Internal, started)
    }
}

impl StartInternal2 {
    /// Takes whether the server was started.
    pub fn resume(self, started: Result<(), String>) -> (r: StartStep)
        ensures
            r.deep_view() == StartStepView::after_start(
                HealthSource::Internal2,
                done_view(started),
            ),
    {
        with_start(HealthSource::Internal2, started)
    }
}

impl StartExternal {
    /// Takes whether the server was started.
    pub fn resume(self, started: Result<(), String>) -> (r: StartStep)
        ensures
            r.deep_view() == StartStepView::after_start(
                HealthSource::External,
                done_view(started),
            ),
    {
        with_start(HealthSource::External, started)
    }
}

impl QueryStarted {
    /// Takes what the server reported, if it reported anything.
    pub fn resume(self, info: Option<ServerInfo>) -> (r: StartStep)
        ensures
            r.deep_view() == StartStepView::after_started(info.deep_view()),
    {
        if let Some(info) = info {
            if let Some(url) = info.url {
                return StartStep::Done(Ok(url));
            }
        }
        StartStep::Done(Err(Error::ServerStartFailed("empty_health".to_string())))
    }
}

} // verus!
