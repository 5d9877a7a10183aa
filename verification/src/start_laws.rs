//! What holds of a whole attempt to start a server, whatever its parts
//! answer.

use vstd::prelude::*;

use crate::error::{done_view, result_view, DownloaderError, DownloaderErrorView, ErrorView};
use crate::health::{health_source, HealthSource};
use crate::location::{cactus_dir, stt_dir, Location, LocationView};
use crate::model::{is_stt, LocalModel, ModelView, Platform, ServerInfo, ServerInfoView};
use crate::start::{
    cactus_config, cactus_config_of, sidecar_command, sidecar_command_of, start_server,
    CactusConfig, CheckDownloaded, FindPort, GetSupervisor, QueryHealth, QueryStarted, ReadApiKey,
    ReadDevice, ReadModelsBase, SidecarCommand, StartExternal, StartInternal, StartInternal2,
    StartStep, StartStepView, StopAll,
};

verus! {

/// What the steps of one attempt are answered.
pub struct StartWorld {
    /// What the server for the model reports at first.
    pub health: Option<ServerInfoView>,
    /// Whether the model is downloaded.
    pub downloaded: Result<bool, DownloaderErrorView>,
    /// Whether there is a supervisor.
    pub supervisor: bool,
    /// Whether the servers could be stopped.
    pub stopped: Result<(), Seq<char>>,
    /// Where models are kept.
    pub base: LocationView,
    /// The address of the cloud service.
    pub base_url: Option<Seq<char>>,
    /// The fingerprint of the device.
    pub fingerprint: Seq<char>,
    /// The key for the external server.
    pub key: Option<Seq<char>>,
    /// A free port.
    pub port: Option<u16>,
    /// Whether the server could be started.
    pub started: Result<(), Seq<char>>,
    /// What the started server reports.
    pub started_health: Option<ServerInfoView>,
}

/// The step that follows `step` where it is answered as in `w`.
pub open spec fn next_step(step: StartStepView, w: StartWorld) -> StartStepView {
    match step {
        StartStepView::QueryHealth { model, platform, .. } => StartStepView::after_health(
            model,
            platform,
            w.health,
        ),
        StartStepView::CheckDownloaded { model, platform } => StartStepView::after_download_check(
            model,
            platform,
            w.downloaded,
        ),
        StartStepView::GetSupervisor { model, platform } => StartStepView::after_supervisor(
            model,
            platform,
            w.supervisor,
        ),
        StartStepView::StopAll { model, platform } => StartStepView::after_stop(
            model,
            platform,
            w.stopped,
        ),
        StartStepView::ReadModelsBase { model, platform } => StartStepView::after_base(
            model,
            platform,
            w.base,
        ),
        StartStepView::ReadDevice { model, cache_dir } => StartStepView::StartInternal2 {
            model,
            cache_dir,
            config: cactus_config_of(w.base_url, w.fingerprint),
        },
        StartStepView::ReadApiKey { model, data_dir, platform } => StartStepView::after_key(
            model,
            data_dir,
            platform,
            w.key,
        ),
        StartStepView::FindPort { model, data_dir, am_key, platform } => StartStepView::after_port(
            model,
            data_dir,
            am_key,
            platform,
            w.port,
        ),
        StartStepView::StartInternal { .. } => StartStepView::after_start(
            HealthSource::Internal,
            w.started,
        ),
        StartStepView::StartInternal2 { .. } => StartStepView::after_start(
            HealthSource::Internal2,
            w.started,
        ),
        StartStepView::StartExternal { .. } => StartStepView::after_start(
            HealthSource::External,
            w.started,
        ),
        StartStepView::QueryStarted { .. } => StartStepView::after_started(w.started_health),
        StartStepView::Done(_) => step,
    }
}

/// How many steps can follow `step` at most.
pub open spec fn steps_left(step: StartStepView) -> nat {
    match step {
        StartStepView::QueryHealth { .. } => 9,
        StartStepView::CheckDownloaded { .. } => 8,
        StartStepView::GetSupervisor { .. } => 7,
        StartStepView::StopAll { .. } => 6,
        StartStepView::ReadModelsBase { .. } => 5,
        StartStepView::ReadDevice { .. } => 4,
        StartStepView::ReadApiKey { .. } => 4,
        StartStepView::FindPort { .. } => 3,
        StartStepView::StartInternal { .. } => 2,
        StartStepView::StartInternal2 { .. } => 2,
        StartStepView::StartExternal { .. } => 2,
        StartStepView::QueryStarted { .. } => 1,
        StartStepView::Done(_) => 0,
    }
}

/// The steps of an attempt from `step` on, up to the answer.
pub open spec fn steps_from(step: StartStepView, w: StartWorld) -> Seq<StartStepView>
    decreases steps_left(step),
{
    if step is Done {
        seq![step]
    } else {
        seq![step] + steps_from(next_step(step, w), w)
    }
}

/// The steps of an attempt to start the server of `model`.
pub open spec fn start_steps(model: ModelView, platform: Platform, w: StartWorld) -> Seq<
    StartStepView,
> {
    steps_from(StartStepView::first(model, platform), w)
}

/// Whether `step` starts a server.
pub open spec fn starts_a_server(step: StartStepView) -> bool {
    step is StartInternal || step is StartInternal2 || step is StartExternal
}

/// Whether a server reports that it runs `model` already.
pub open spec fn already_served(model: ModelView, platform: Platform, w: StartWorld) -> bool {
    health_source(model, platform) is Some && w.health is Some && w.health->0.model == Some(model)
}

/// The answer to a request to start the server of `model`.
pub open spec fn start_answer(model: ModelView, platform: Platform, w: StartWorld) -> Result<
    Seq<char>,
    ErrorView,
> {
    let external = model is Am;
    if !is_stt(model) {
        Err(ErrorView::UnsupportedModelType)
    } else if already_served(model, platform, w) {
        match w.health->0.url {
            Some(url) => Ok(url),
            None => Err(ErrorView::ServerStartFailed("missing_health_url"@)),
        }
    } else if external && w.downloaded is Err {
        Err(ErrorView::ModelDownloaderError(w.downloaded->Err_0))
    } else if external && !w.downloaded->Ok_0 {
        Err(ErrorView::ModelNotDownloaded)
    } else if !w.supervisor {
        Err(ErrorView::SupervisorNotFound)
    } else if w.stopped is Err {
        Err(ErrorView::ServerStopFailed(w.stopped->Err_0))
    } else if health_source(model, platform) is None {
        Err(ErrorView::UnsupportedModelType)
    } else if external && (w.key is None || w.key->0.len() == 0) {
        Err(ErrorView::AmApiKeyNotSet)
    } else if external && w.port is None {
        Err(ErrorView::ServerStartFailed("failed_to_find_free_port"@))
    } else if w.started is Err {
        Err(ErrorView::ServerStartFailed(w.started->Err_0))
    } else if w.started_health is None || w.started_health->0.url is None {
        Err(ErrorView::ServerStartFailed("empty_health"@))
    } else {
        Ok(w.started_health->0.url->0)
    }
}

/// An attempt ends with one answer, its last step, after ten steps at most.
pub proof fn every_attempt_ends(step: StartStepView, w: StartWorld)
    ensures
        1 <= steps_from(step, w).len() <= steps_left(step) + 1,
        steps_from(step, w)[0] == step,
        steps_from(step, w).last() is Done,
        forall|i: int|
            0 <= i < steps_from(step, w).len() - 1 ==> !(#[trigger] steps_from(step, w)[i] is Done),
    decreases steps_left(step),
{
    if !(step is Done) {
        let rest = steps_from(next_step(step, w), w);
        every_attempt_ends(next_step(step, w), w);
        assert forall|i: int| 0 <= i < steps_from(step, w).len() - 1 implies !(
        #[trigger] steps_from(step, w)[i] is Done) by {
            if i > 0 {
                assert(steps_from(step, w)[i] == rest[i - 1]);
            }
        }
    }
}

/// Each step of an attempt follows the one before as it was answered.
pub proof fn steps_follow_each_other(step: StartStepView, w: StartWorld, i: int)
    requires
        0 <= i < steps_from(step, w).len() - 1,
    ensures
        steps_from(step, w)[i + 1] == next_step(steps_from(step, w)[i], w),
    decreases steps_left(step),
{
    if !(step is Done) {
        let rest = steps_from(next_step(step, w), w);
        every_attempt_ends(next_step(step, w), w);
        if i > 0 {
            steps_follow_each_other(next_step(step, w), w, i - 1);
            assert(steps_from(step, w)[i] == rest[i - 1]);
        }
        assert(steps_from(step, w)[i + 1] == rest[i]);
    }
}

/// The answer of a whole attempt: the first obstacle in the order of the
/// work, or else the address that the server reports.
pub proof fn attempt_gives_the_answer(model: ModelView, platform: Platform, w: StartWorld)
    ensures
        start_steps(model, platform, w).last() == StartStepView::Done(
            start_answer(model, platform, w),
        ),
{
    reveal_with_fuel(steps_from, 11);
}

/// A model that does not transcribe speech is refused at once: nothing is
/// asked, stopped or started.
pub proof fn other_models_are_refused_at_once(model: ModelView, platform: Platform, w: StartWorld)
    requires
        !is_stt(model),
    ensures
        start_steps(model, platform, w) == seq![
            StartStepView::Done(Err(ErrorView::UnsupportedModelType)),
        ],
{
}

/// A model that a server runs already is not started again: the server is
/// asked, and nothing else is done.
pub proof fn served_models_are_left_alone(model: ModelView, platform: Platform, w: StartWorld)
    requires
        is_stt(model),
        already_served(model, platform, w),
    ensures
        start_steps(model, platform, w).len() == 2,
        start_steps(model, platform, w)[0] == (StartStepView::QueryHealth {
            model,
            platform,
            source: health_source(model, platform)->0,
        }),
        w.health->0.url matches Some(url) ==> start_steps(model, platform, w)[1]
            == StartStepView::Done(Ok(url)),
        w.health->0.url is None ==> start_steps(model, platform, w)[1] == StartStepView::Done(
            Err(ErrorView::ServerStartFailed("missing_health_url"@)),
        ),
{
    reveal_with_fuel(steps_from, 3);
}

/// Whether `step` comes before the servers are stopped.
spec fn before_stop(step: StartStepView) -> bool {
    step is QueryHealth || step is CheckDownloaded || step is GetSupervisor
}

proof fn lemma_stop_comes_first(step: StartStepView, w: StartWorld, i: int)
    requires
        before_stop(step) || step is StopAll || step is Done,
        0 <= i < steps_from(step, w).len(),
        starts_a_server(steps_from(step, w)[i]),
    ensures
        w.stopped is Ok,
        exists|j: int| 0 <= j < i && #[trigger] steps_from(step, w)[j] is StopAll,
    decreases steps_left(step),
{
    if !(step is Done) {
        let next = next_step(step, w);
        let rest = steps_from(next, w);
        assert(steps_from(step, w) == seq![step] + rest);
        assert(i > 0);
        assert(rest[i - 1] == steps_from(step, w)[i]);
        if step is StopAll {
            assert(steps_from(step, w)[0] is StopAll);
        } else {
            lemma_stop_comes_first(next, w, i - 1);
            let j = choose|j: int| 0 <= j < i - 1 && #[trigger] rest[j] is StopAll;
            assert(steps_from(step, w)[j + 1] == rest[j]);
        }
    }
}

/// Before a server is started, every server was stopped.
pub proof fn servers_are_stopped_before_one_starts(
    model: ModelView,
    platform: Platform,
    w: StartWorld,
    i: int,
)
    requires
        0 <= i < start_steps(model, platform, w).len(),
        starts_a_server(start_steps(model, platform, w)[i]),
    ensures
        w.stopped is Ok,
        exists|j: int| 0 <= j < i && #[trigger] start_steps(model, platform, w)[j] is StopAll,
{
    lemma_stop_comes_first(StartStepView::first(model, platform), w, i);
}

/// Whether the servers are to be stopped, from `step` on.
pub open spec fn stops_servers(step: StartStepView, w: StartWorld) -> bool {
    exists|i: int| 0 <= i < steps_from(step, w).len() && #[trigger] steps_from(step, w)[i] is StopAll
}

proof fn lemma_stops_servers(step: StartStepView, w: StartWorld)
    ensures
        stops_servers(step, w) <==> step is StopAll || !(step is Done) && stops_servers(
            next_step(step, w),
            w,
        ),
{
    let rest = steps_from(next_step(step, w), w);
    let steps = steps_from(step, w);
    every_attempt_ends(step, w);
    if step is StopAll {
        assert(steps[0] is StopAll);
    } else if !(step is Done) {
        assert(steps == seq![step] + rest);
        if stops_servers(step, w) {
            let i = choose|i: int| 0 <= i < steps.len() && #[trigger] steps[i] is StopAll;
            assert(rest[i - 1] is StopAll);
        }
        if stops_servers(next_step(step, w), w) {
            let i = choose|i: int| 0 <= i < rest.len() && #[trigger] rest[i] is StopAll;
            assert(steps[i + 1] is StopAll);
        }
    }
}

/// Servers are stopped only on the way to a start: the model must transcribe
/// speech, must not be served already and, for an external server, must be
/// downloaded, and there must be a supervisor. Otherwise every server is left
/// running.
pub proof fn servers_are_stopped_only_for_a_start(
    model: ModelView,
    platform: Platform,
    w: StartWorld,
)
    ensures
        stops_servers(StartStepView::first(model, platform), w) <==> {
            &&& is_stt(model)
            &&& !already_served(model, platform, w)
            &&& model is Am ==> w.downloaded == Ok::<bool, DownloaderErrorView>(true)
            &&& w.supervisor
        },
{
    let s0 = StartStepView::first(model, platform);
    let s1 = next_step(s0, w);
    let s2 = next_step(s1, w);
    let s3 = next_step(s2, w);
    lemma_stops_servers(s0, w);
    lemma_stops_servers(s1, w);
    lemma_stops_servers(s2, w);
    lemma_stops_servers(s3, w);
}

/// What an attempt for `model` may start, where its steps are answered as in
/// `w`: only the server of that model, on a platform that has it, with the
/// key, the port, the directory and the settings that were found.
pub open spec fn may_start(
    step: StartStepView,
    model: ModelView,
    platform: Platform,
    w: StartWorld,
) -> bool {
    match step {
        StartStepView::StartInternal { model: id, cache_dir } => {
            &&& model == ModelView::Whisper(id)
            &&& platform.whisper_cpp
            &&& cache_dir == stt_dir(w.base)
        },
        StartStepView::StartInternal2 { model: id, cache_dir, config } => {
            &&& model == ModelView::Cactus(id)
            &&& platform.aarch64
            &&& cache_dir == cactus_dir(w.base)
            &&& config == cactus_config_of(w.base_url, w.fingerprint)
        },
        StartStepView::StartExternal { model: id, data_dir, am_key, port, command } => {
            &&& model == ModelView::Am(id)
            &&& w.downloaded == Ok::<bool, DownloaderErrorView>(true)
            &&& data_dir == stt_dir(w.base)
            &&& w.key == Some(am_key)
            &&& am_key.len() > 0
            &&& w.port == Some(port)
            &&& command == sidecar_command_of(platform.debug_assertions)
        },
        _ => false,
    }
}

/// What is true of every step of an attempt for `model`.
spec fn is_step_for(
    step: StartStepView,
    model: ModelView,
    platform: Platform,
    w: StartWorld,
) -> bool {
    let ready = model is Am ==> w.downloaded == Ok::<bool, DownloaderErrorView>(true);
    match step {
        StartStepView::QueryHealth { model: m, platform: p, source } => m == model && p == platform
            && health_source(model, platform) == Some(source),
        StartStepView::CheckDownloaded { model: m, platform: p } => m == model && p == platform,
        StartStepView::GetSupervisor { model: m, platform: p } => m == model && p == platform
            && ready,
        StartStepView::StopAll { model: m, platform: p } => m == model && p == platform && ready,
        StartStepView::ReadModelsBase { model: m, platform: p } => m == model && p == platform
            && ready,
        StartStepView::ReadDevice { model: id, cache_dir } => model == ModelView::Cactus(id)
            && platform.aarch64 && cache_dir == cactus_dir(w.base),
        StartStepView::ReadApiKey { model: id, data_dir, platform: p } => model == ModelView::Am(
            id,
        ) && p == platform && ready && data_dir == stt_dir(w.base),
        StartStepView::FindPort { model: id, data_dir, am_key, platform: p } => model
            == ModelView::Am(id) && p == platform && ready && data_dir == stt_dir(w.base) && w.key
            == Some(am_key) && am_key.len() > 0,
        StartStepView::QueryStarted { source } => health_source(model, platform) == Some(source),
        StartStepView::Done(_) => true,
        _ => may_start(step, model, platform, w),
    }
}

proof fn lemma_steps_are_for_the_model(
    step: StartStepView,
    model: ModelView,
    platform: Platform,
    w: StartWorld,
    i: int,
)
    requires
        is_step_for(step, model, platform, w),
        0 <= i < steps_from(step, w).len(),
    ensures
        is_step_for(steps_from(step, w)[i], model, platform, w),
    decreases steps_left(step),
{
    if !(step is Done) && i > 0 {
        let next = next_step(step, w);
        assert(is_step_for(next, model, platform, w));
        lemma_steps_are_for_the_model(next, model, platform, w, i - 1);
        assert(steps_from(step, w)[i] == steps_from(next, w)[i - 1]);
    }
}

/// An attempt starts nothing but the server of the model that was asked for,
/// where the platform has it. An external server is started only for a model
/// that is downloaded, with a key that is not empty.
pub proof fn only_the_wanted_server_is_started(
    model: ModelView,
    platform: Platform,
    w: StartWorld,
    i: int,
)
    requires
        0 <= i < start_steps(model, platform, w).len(),
        starts_a_server(start_steps(model, platform, w)[i]),
    ensures
        may_start(start_steps(model, platform, w)[i], model, platform, w),
{
    lemma_steps_are_for_the_model(
        StartStepView::first(model, platform),
        model,
        platform,
        w,
        i,
    );
}

/// The server that is asked for its address after it was started is the one
/// that is asked about the model in the first place.
pub proof fn the_started_server_is_asked(
    model: ModelView,
    platform: Platform,
    w: StartWorld,
    i: int,
    source: HealthSource,
)
    requires
        0 <= i < start_steps(model, platform, w).len(),
        start_steps(model, platform, w)[i] == (StartStepView::QueryStarted { source }),
    ensures
        health_source(model, platform) == Some(source),
{
    lemma_steps_are_for_the_model(
        StartStepView::first(model, platform),
        model,
        platform,
        w,
        i,
    );
}

proof fn lemma_no_start_after_a_start(step: StartStepView, w: StartWorld, i: int)
    requires
        starts_a_server(step),
        0 < i < steps_from(step, w).len(),
    ensures
        !starts_a_server(steps_from(step, w)[i]),
{
    reveal_with_fuel(steps_from, 4);
}

proof fn lemma_one_start(step: StartStepView, w: StartWorld, i: int, j: int)
    requires
        0 <= i < j < steps_from(step, w).len(),
        starts_a_server(steps_from(step, w)[i]),
    ensures
        !starts_a_server(steps_from(step, w)[j]),
    decreases steps_left(step),
{
    if starts_a_server(step) {
        lemma_no_start_after_a_start(step, w, j);
    } else if !(step is Done) {
        let rest = steps_from(next_step(step, w), w);
        assert(steps_from(step, w)[j] == rest[j - 1]);
        if i > 0 {
            assert(steps_from(step, w)[i] == rest[i - 1]);
            lemma_one_start(next_step(step, w), w, i - 1, j - 1);
        }
    }
}

/// An attempt starts one server at most.
pub proof fn at_most_one_server_is_started(
    model: ModelView,
    platform: Platform,
    w: StartWorld,
    i: int,
    j: int,
)
    requires
        0 <= i < start_steps(model, platform, w).len(),
        0 <= j < start_steps(model, platform, w).len(),
        starts_a_server(start_steps(model, platform, w)[i]),
        starts_a_server(start_steps(model, platform, w)[j]),
    ensures
        i == j,
{
    let first = StartStepView::first(model, platform);
    if i < j {
        lemma_one_start(first, w, i, j);
    } else if j < i {
        lemma_one_start(first, w, j, i);
    }
}

proof fn lemma_no_stop_after_the_stop(step: StartStepView, w: StartWorld, i: int)
    requires
        !before_stop(step),
        0 <= i < steps_from(step, w).len(),
        i > 0 || !(step is StopAll),
    ensures
        !(steps_from(step, w)[i] is StopAll),
    decreases steps_left(step),
{
    if !(step is Done) && i > 0 {
        let next = next_step(step, w);
        lemma_no_stop_after_the_stop(next, w, i - 1);
        assert(steps_from(step, w)[i] == steps_from(next, w)[i - 1]);
    }
}

proof fn lemma_one_stop(step: StartStepView, w: StartWorld, i: int, j: int)
    requires
        0 <= i < j < steps_from(step, w).len(),
        steps_from(step, w)[i] is StopAll,
    ensures
        !(steps_from(step, w)[j] is StopAll),
    decreases steps_left(step),
{
    if !before_stop(step) {
        lemma_no_stop_after_the_stop(step, w, j);
    } else {
        let rest = steps_from(next_step(step, w), w);
        assert(steps_from(step, w)[i] == rest[i - 1]);
        assert(steps_from(step, w)[j] == rest[j - 1]);
        lemma_one_stop(next_step(step, w), w, i - 1, j - 1);
    }
}

/// An attempt stops the servers once at most.
pub proof fn servers_are_stopped_at_most_once(
    model: ModelView,
    platform: Platform,
    w: StartWorld,
    i: int,
    j: int,
)
    requires
        0 <= i < start_steps(model, platform, w).len(),
        0 <= j < start_steps(model, platform, w).len(),
        start_steps(model, platform, w)[i] is StopAll,
        start_steps(model, platform, w)[j] is StopAll,
    ensures
        i == j,
{
    let first = StartStepView::first(model, platform);
    if i < j {
        lemma_one_stop(first, w, i, j);
    } else if j < i {
        lemma_one_stop(first, w, j, i);
    }
}

/// The address that is answered is one that a server reported: the server
/// that runs the model already, or the one that was just started.
pub proof fn addresses_come_from_servers(
    model: ModelView,
    platform: Platform,
    w: StartWorld,
    url: Seq<char>,
)
    requires
        start_steps(model, platform, w).last() == StartStepView::Done(Ok(url)),
    ensures
        already_served(model, platform, w) ==> w.health->0.url == Some(url),
        !already_served(model, platform, w) ==> w.started_health is Some
            && w.started_health->0.url == Some(url),
{
    attempt_gives_the_answer(model, platform, w);
}

/// Starting a server twice gives the same address, and the second attempt
/// starts and stops nothing, provided that the server reports of itself the
/// second time what it reported when it was started, and that this names the
/// model.
pub proof fn starting_twice_starts_once(
    model: ModelView,
    platform: Platform,
    first: StartWorld,
    second: StartWorld,
    url: Seq<char>,
)
    requires
        !already_served(model, platform, first),
        start_steps(model, platform, first).last() == StartStepView::Done(Ok(url)),
        first.started_health is Some,
        first.started_health->0.model == Some(model),
        second.health == first.started_health,
    ensures
        start_steps(model, platform, second) == seq![
            StartStepView::QueryHealth {
                model,
                platform,
                source: health_source(model, platform)->0,
            },
            StartStepView::Done(Ok(url)),
        ],
{
    attempt_gives_the_answer(model, platform, first);
    served_models_are_left_alone(model, platform, second);
    assert(start_steps(model, platform, second) =~= seq![
        StartStepView::QueryHealth {
            model,
            platform,
            source: health_source(model, platform)->0,
        },
        StartStepView::Done(Ok(url)),
    ]);
}

/// Whether an attempt ended with `answer` as its step number `n`, counted
/// from nought.
pub open spec fn ended_with(
    steps: Seq<StartStepView>,
    n: int,
    answer: Result<Seq<char>, ErrorView>,
) -> bool {
    steps.len() == n + 1 && steps[n] == StartStepView::Done(answer)
}

/// Whether an attempt ended, as its step number `n`, with what the server
/// that was started reported: its address, or an error where it reported
/// none.
pub open spec fn ended_with_the_address(
    steps: Seq<StartStepView>,
    n: int,
    report: Option<ServerInfoView>,
) -> bool {
    if report is Some && report->0.url is Some {
        ended_with(steps, n, Ok(report->0.url->0))
    } else {
        ended_with(steps, n, Err(ErrorView::ServerStartFailed("empty_health"@)))
    }
}

/// Whether a report names `model` as the one that is run.
pub open spec fn names_model(report: Option<ServerInfoView>, model: ModelView) -> bool {
    report is Some && report->0.model == Some(model)
}

/// A model that its server runs already is not started again: the answer is
/// the address that the server reports, or an error where it reports none.
pub proof fn a_served_model_gives_its_address(
    model: ModelView,
    platform: Platform,
    w: StartWorld,
)
    requires
        model is Am || model is Whisper && platform.whisper_cpp || model is Cactus
            && platform.aarch64,
        names_model(w.health, model),
    ensures
        w.health->0.url matches Some(url) ==> ended_with(
            start_steps(model, platform, w),
            1,
            Ok(url),
        ),
        w.health->0.url is None ==> ended_with(
            start_steps(model, platform, w),
            1,
            Err(ErrorView::ServerStartFailed("missing_health_url"@)),
        ),
{
    reveal_with_fuel(steps_from, 3);
}

/// The first part of the way to a sidecar that does not run the model yet: it
/// is asked, the model must be downloaded, there must be a supervisor, and
/// every server is stopped. Whatever is amiss ends the attempt.
pub proof fn the_way_to_a_sidecar_begins(id: Seq<char>, platform: Platform, w: StartWorld)
    requires
        !names_model(w.health, ModelView::Am(id)),
    ensures
        ({
            let model = ModelView::Am(id);
            let steps = start_steps(model, platform, w);
            let downloaded = w.downloaded is Ok && w.downloaded->Ok_0;
            &&& steps.len() >= 3
            &&& steps[0] == StartStepView::QueryHealth {
                model,
                platform,
                source: HealthSource::External,
            }
            &&& steps[1] == StartStepView::CheckDownloaded { model, platform }
            &&& w.downloaded is Err ==> ended_with(
                steps,
                2,
                Err(ErrorView::ModelDownloaderError(w.downloaded->Err_0)),
            )
            &&& w.downloaded is Ok && !w.downloaded->Ok_0 ==> ended_with(
                steps,
                2,
                Err(ErrorView::ModelNotDownloaded),
            )
            &&& downloaded ==> steps.len() >= 4 && steps[2] == StartStepView::GetSupervisor {
                model,
                platform,
            }
            &&& downloaded && !w.supervisor ==> ended_with(
                steps,
                3,
                Err(ErrorView::SupervisorNotFound),
            )
            &&& downloaded && w.supervisor ==> steps.len() >= 5 && steps[3]
                == StartStepView::StopAll { model, platform }
            &&& downloaded && w.supervisor && w.stopped is Err ==> ended_with(
                steps,
                4,
                Err(ErrorView::ServerStopFailed(w.stopped->Err_0)),
            )
        }),
{
    reveal_with_fuel(steps_from, 11);
}

/// The second part of the way to a sidecar: with a key that is not empty and
/// a free port it is started, for the model that was asked for, in the
/// directory `stt` of the place where models are kept; it is then asked for
/// its address. Whatever is amiss ends the attempt.
pub proof fn the_way_to_a_sidecar_ends(id: Seq<char>, platform: Platform, w: StartWorld)
    requires
        !names_model(w.health, ModelView::Am(id)),
        w.downloaded == Ok::<bool, DownloaderErrorView>(true),
        w.supervisor,
        w.stopped is Ok,
    ensures
        ({
            let steps = start_steps(ModelView::Am(id), platform, w);
            let data_dir = LocationView {
                root: w.base.root,
                segments: w.base.segments.push("stt"@),
            };
            let key = w.key is Some && w.key->0.len() > 0;
            &&& steps.len() >= 7
            &&& steps[4] == StartStepView::ReadModelsBase { model: ModelView::Am(id), platform }
            &&& steps[5] == StartStepView::ReadApiKey { model: id, data_dir, platform }
            &&& !key ==> ended_with(steps, 6, Err(ErrorView::AmApiKeyNotSet))
            &&& key ==> steps.len() >= 8 && steps[6] == StartStepView::FindPort {
                model: id,
                data_dir,
                am_key: w.key->0,
                platform,
            }
            &&& key && w.port is None ==> ended_with(
                steps,
                7,
                Err(ErrorView::ServerStartFailed("failed_to_find_free_port"@)),
            )
            &&& key && w.port is Some ==> {
                &&& steps.len() >= 9
                &&& steps[7] matches StartStepView::StartExternal {
                    model,
                    data_dir: dir,
                    am_key,
                    port,
                    command,
                }
                &&& model == id
                &&& dir == data_dir
                &&& am_key == w.key->0
                &&& port == w.port->0
                &&& command.program == "char-sidecar-stt"@
                &&& platform.debug_assertions ==> command.args == seq![
                    "serve"@,
                    "--any-token"@,
                    "-v"@,
                    "-d"@,
                ]
                &&& !platform.debug_assertions ==> command.args == seq!["serve"@, "--any-token"@]
            }
            &&& key && w.port is Some && w.started is Err ==> ended_with(
                steps,
                8,
                Err(ErrorView::ServerStartFailed(w.started->Err_0)),
            )
            &&& key && w.port is Some && w.started is Ok ==> steps[8]
                == StartStepView::QueryStarted { source: HealthSource::External }
                && ended_with_the_address(steps, 9, w.started_health)
        }),
{
    reveal_with_fuel(steps_from, 11);
}

/// The way to an engine inside this process that does not run the model yet:
/// it is asked where the platform has it, there must be a supervisor, and
/// every server is stopped. The downloader is not asked. Whatever is amiss
/// ends the attempt.
pub proof fn the_way_to_an_engine_begins(model: ModelView, platform: Platform, w: StartWorld)
    requires
        model is Whisper && platform.whisper_cpp || model is Cactus && platform.aarch64,
        !names_model(w.health, model),
    ensures
        ({
            let steps = start_steps(model, platform, w);
            &&& steps.len() >= 3
            &&& model is Whisper ==> steps[0] == StartStepView::QueryHealth {
                model,
                platform,
                source: HealthSource::Internal,
            }
            &&& model is Cactus ==> steps[0] == StartStepView::QueryHealth {
                model,
                platform,
                source: HealthSource::Internal2,
            }
            &&& steps[1] == StartStepView::GetSupervisor { model, platform }
            &&& !w.supervisor ==> ended_with(steps, 2, Err(ErrorView::SupervisorNotFound))
            &&& w.supervisor ==> steps.len() >= 4 && steps[2] == StartStepView::StopAll {
                model,
                platform,
            }
            &&& w.supervisor && w.stopped is Err ==> ended_with(
                steps,
                3,
                Err(ErrorView::ServerStopFailed(w.stopped->Err_0)),
            )
            &&& w.supervisor && w.stopped is Ok ==> steps.len() >= 6 && steps[3]
                == StartStepView::ReadModelsBase { model, platform }
        }),
{
    reveal_with_fuel(steps_from, 11);
}

/// The whisper engine is started for the model that was asked for, in the
/// directory `stt` of the place where models are kept, and is then asked for
/// its address.
pub proof fn the_whisper_engine_is_started(id: Seq<char>, platform: Platform, w: StartWorld)
    requires
        platform.whisper_cpp,
        !names_model(w.health, ModelView::Whisper(id)),
        w.supervisor,
        w.stopped is Ok,
    ensures
        ({
            let steps = start_steps(ModelView::Whisper(id), platform, w);
            &&& steps.len() >= 6
            &&& steps[4] == StartStepView::StartInternal {
                model: id,
                cache_dir: LocationView {
                    root: w.base.root,
                    segments: w.base.segments.push("stt"@),
                },
            }
            &&& w.started is Err ==> ended_with(
                steps,
                5,
                Err(ErrorView::ServerStartFailed(w.started->Err_0)),
            )
            &&& w.started is Ok ==> steps[5] == StartStepView::QueryStarted {
                source: HealthSource::Internal,
            } && ended_with_the_address(steps, 6, w.started_health)
        }),
{
    reveal_with_fuel(steps_from, 11);
}

/// The cactus engine is started for the model that was asked for, in the
/// directory `cactus` of the place where models are kept. It is told the
/// address of the cloud service and, in the header `x-device-fingerprint`,
/// the fingerprint of the device; it is then asked for its address.
pub proof fn the_cactus_engine_is_started(id: Seq<char>, platform: Platform, w: StartWorld)
    requires
        platform.aarch64,
        !names_model(w.health, ModelView::Cactus(id)),
        w.supervisor,
        w.stopped is Ok,
    ensures
        ({
            let steps = start_steps(ModelView::Cactus(id), platform, w);
            let dir = LocationView {
                root: w.base.root,
                segments: w.base.segments.push("cactus"@),
            };
            &&& steps.len() >= 7
            &&& steps[4] == StartStepView::ReadDevice { model: id, cache_dir: dir }
            &&& steps[5] matches StartStepView::StartInternal2 { model, cache_dir, config }
            &&& model == id
            &&& cache_dir == dir
            &&& config.base_url == w.base_url
            &&& config.headers == seq![("x-device-fingerprint"@, w.fingerprint)]
            &&& w.started is Err ==> ended_with(
                steps,
                6,
                Err(ErrorView::ServerStartFailed(w.started->Err_0)),
            )
            &&& w.started is Ok ==> steps[6] == StartStepView::QueryStarted {
                source: HealthSource::Internal2,
            } && ended_with_the_address(steps, 7, w.started_health)
        }),
{
    reveal_with_fuel(steps_from, 11);
}

/// An engine that the platform lacks is not asked and not started. A
/// supervisor that runs still stops every server before the model is refused.
pub proof fn a_missing_engine_is_not_started(model: ModelView, platform: Platform, w: StartWorld)
    requires
        model is Whisper && !platform.whisper_cpp || model is Cactus && !platform.aarch64,
    ensures
        ({
            let steps = start_steps(model, platform, w);
            &&& steps[0] == StartStepView::GetSupervisor { model, platform }
            &&& !w.supervisor ==> ended_with(steps, 1, Err(ErrorView::SupervisorNotFound))
            &&& w.supervisor ==> steps[1] == StartStepView::StopAll { model, platform }
            &&& w.supervisor && w.stopped is Err ==> ended_with(
                steps,
                2,
                Err(ErrorView::ServerStopFailed(w.stopped->Err_0)),
            )
            &&& w.supervisor && w.stopped is Ok && platform.aarch64 ==> steps[2]
                == StartStepView::ReadModelsBase { model, platform } && ended_with(
                steps,
                3,
                Err(ErrorView::UnsupportedModelType),
            )
            &&& w.supervisor && w.stopped is Ok && !platform.aarch64 ==> ended_with(
                steps,
                2,
                Err(ErrorView::UnsupportedModelType),
            )
        }),
{
    reveal_with_fuel(steps_from, 11);
}

/// The sidecar is run as `char-sidecar-stt serve --any-token`, and with the
/// switches `-v` and `-d` where debug assertions are on. The cactus engine is
/// told the address of its cloud service and one header.
pub proof fn engines_are_told_what_they_need(
    debug_assertions: bool,
    command: SidecarCommand,
    base_url: Option<String>,
    fingerprint: String,
    config: CactusConfig,
)
    requires
        call_ensures(sidecar_command, (debug_assertions,), command),
        call_ensures(cactus_config, (base_url, fingerprint), config),
    ensures
        command.program@ == "char-sidecar-stt"@,
        debug_assertions ==> command.args.deep_view() == seq![
            "serve"@,
            "--any-token"@,
            "-v"@,
            "-d"@,
        ],
        !debug_assertions ==> command.args.deep_view() == seq!["serve"@, "--any-token"@],
        config.base_url.deep_view() == base_url.deep_view(),
        config.headers.deep_view() == seq![("x-device-fingerprint"@, fingerprint@)],
{
}

/// Whether a step ends an attempt with the error `e`.
pub open spec fn ends_with(step: StartStep, e: ErrorView) -> bool {
    step matches StartStep::Done(Err(told)) && told.deep_view() == e
}

/// Whether a report names `model` as the one that is run: one of the same
/// kind with the same identifier.
pub open spec fn reports_model(info: Option<ServerInfo>, model: LocalModel) -> bool {
    info is Some && info->0.model is Some && match (info->0.model->0, model) {
        (LocalModel::Am(x), LocalModel::Am(y)) => x@ == y@,
        (LocalModel::Whisper(x), LocalModel::Whisper(y)) => x@ == y@,
        (LocalModel::Cactus(x), LocalModel::Cactus(y)) => x@ == y@,
        (LocalModel::GgufLlm(x), LocalModel::GgufLlm(y)) => x@ == y@,
        (LocalModel::CactusLlm(x), LocalModel::CactusLlm(y)) => x@ == y@,
        _ => false,
    }
}

/// A server that runs the model gives the answer at once. Otherwise the
/// downloader is asked about a model of the sidecar, and the supervisor is
/// wanted for a model of an engine.
pub proof fn a_report_decides_whether_to_start(
    query: QueryHealth,
    info: Option<ServerInfo>,
    r: StartStep,
)
    requires
        call_ensures(QueryHealth::resume, (query, info), r),
    ensures
        reports_model(info, query.model) ==> match info->0.url {
            Some(url) => r matches StartStep::Done(Ok(address)) && address@ == url@,
            None => ends_with(r, ErrorView::ServerStartFailed("missing_health_url"@)),
        },
        !reports_model(info, query.model) ==> match query.model {
            LocalModel::Am(_) => r matches StartStep::CheckDownloaded(s) && s.model.deep_view()
                == query.model.deep_view() && s.platform == query.platform,
            LocalModel::Whisper(_) | LocalModel::Cactus(_) => r matches StartStep::GetSupervisor(s)
                && s.model.deep_view() == query.model.deep_view() && s.platform == query.platform,
            LocalModel::GgufLlm(_) | LocalModel::CactusLlm(_) => ends_with(
                r,
                ErrorView::UnsupportedModelType,
            ),
        },
{
}

/// A model that is downloaded goes on to the supervisor, a supervisor that
/// runs goes on to stop every server, always for the same model.
pub proof fn the_model_is_kept_on_the_way(
    check: CheckDownloaded,
    downloaded: Result<bool, DownloaderError>,
    second: StartStep,
    get: GetSupervisor,
    found: bool,
    third: StartStep,
)
    requires
        call_ensures(CheckDownloaded::resume, (check, downloaded), second),
        call_ensures(GetSupervisor::resume, (get, found), third),
    ensures
        downloaded == Ok::<bool, DownloaderError>(true) ==> (second matches
            StartStep::GetSupervisor(s) && s.model.deep_view() == check.model.deep_view()
            && s.platform == check.platform),
        downloaded == Ok::<bool, DownloaderError>(false) ==> ends_with(
            second,
            ErrorView::ModelNotDownloaded,
        ),
        downloaded matches Err(e) ==> ends_with(
            second,
            ErrorView::ModelDownloaderError(e.deep_view()),
        ),
        found ==> (third matches StartStep::StopAll(s) && s.model.deep_view()
            == get.model.deep_view() && s.platform == get.platform),
        !found ==> ends_with(third, ErrorView::SupervisorNotFound),
{
}

/// Once every server was stopped, the place of the models is looked up, unless
/// it is clear by then that the platform has no engine for the model. Each
/// engine gets its own directory there.
pub proof fn engines_get_their_directories(
    stop: StopAll,
    stopped: Result<(), String>,
    second: StartStep,
    read: ReadModelsBase,
    base: Location,
    third: StartStep,
)
    requires
        call_ensures(StopAll::resume, (stop, stopped), second),
        call_ensures(ReadModelsBase::resume, (read, base), third),
    ensures
        stopped matches Err(reason) ==> ends_with(second, ErrorView::ServerStopFailed(reason@)),
        stopped is Ok && (stop.model is Am || stop.model is Whisper && stop.platform.whisper_cpp
            || (stop.model is Whisper || stop.model is Cactus) && stop.platform.aarch64) ==> (
        second matches
            StartStep::ReadModelsBase(s) && s.model.deep_view() == stop.model.deep_view()
            && s.platform == stop.platform),
        stopped is Ok && !stop.platform.aarch64 && (stop.model is Cactus || stop.model is Whisper
            && !stop.platform.whisper_cpp) ==> ends_with(second, ErrorView::UnsupportedModelType),
        read.model matches LocalModel::Am(id) ==> (third matches StartStep::ReadApiKey(s) && s.model@
            == id@ && s.platform == read.platform && s.data_dir.root.deep_view()
            == base.root.deep_view() && s.data_dir.segments.deep_view()
            == base.segments.deep_view().push("stt"@)),
        read.platform.whisper_cpp ==> (read.model matches LocalModel::Whisper(id) ==> (
        third matches StartStep::StartInternal(s) && s.model@ == id@
            && s.cache_dir.root.deep_view() == base.root.deep_view()
            && s.cache_dir.segments.deep_view() == base.segments.deep_view().push("stt"@))),
        read.platform.aarch64 ==> (read.model matches LocalModel::Cactus(id) ==> (
        third matches StartStep::ReadDevice(s) && s.model@ == id@ && s.cache_dir.root.deep_view()
            == base.root.deep_view() && s.cache_dir.segments.deep_view()
            == base.segments.deep_view().push("cactus"@))),
        read.model is Whisper && !read.platform.whisper_cpp || read.model is Cactus
            && !read.platform.aarch64 || read.model is GgufLlm || read.model is CactusLlm
            ==> ends_with(third, ErrorView::UnsupportedModelType),
{
}

/// What was found on the way is what a server is started with: the model, its
/// directory, the key, the port, the cloud service and the fingerprint. A key
/// that is missing or empty, or no free port, ends the attempt.
pub proof fn servers_are_started_with_what_was_found(
    key_step: ReadApiKey,
    key: Option<String>,
    second: StartStep,
    port_step: FindPort,
    port: Option<u16>,
    third: StartStep,
    device: ReadDevice,
    base_url: Option<String>,
    fingerprint: String,
    other: StartStep,
)
    requires
        call_ensures(ReadApiKey::resume, (key_step, key), second),
        call_ensures(FindPort::resume, (port_step, port), third),
        call_ensures(ReadDevice::resume, (device, base_url, fingerprint), other),
    ensures
        key is None || key->0@.len() == 0 ==> ends_with(second, ErrorView::AmApiKeyNotSet),
        key is Some && key->0@.len() > 0 ==> (second matches StartStep::FindPort(s) && s.model@
            == key_step.model@ && s.data_dir.deep_view() == key_step.data_dir.deep_view()
            && s.am_key@ == key->0@ && s.platform == key_step.platform),
        port is None ==> ends_with(
            third,
            ErrorView::ServerStartFailed("failed_to_find_free_port"@),
        ),
        port is Some ==> (third matches StartStep::StartExternal(s) && s.model@ == port_step.model@
            && s.data_dir.deep_view() == port_step.data_dir.deep_view() && s.am_key@
            == port_step.am_key@ && s.port == port->0 && s.command.program@ == "char-sidecar-stt"@
            && s.command.args.deep_view() == (if port_step.platform.debug_assertions {
            seq!["serve"@, "--any-token"@, "-v"@, "-d"@]
        } else {
            seq!["serve"@, "--any-token"@]
        })),
        other matches StartStep::StartInternal2(s) && s.model@ == device.model@
            && s.cache_dir.deep_view() == device.cache_dir.deep_view()
            && s.config.base_url.deep_view() == base_url.deep_view()
            && s.config.headers.deep_view() == seq![("x-device-fingerprint"@, fingerprint@)],
{
}

/// A server that was started is the one that is asked for its address; one
/// that was not ends the attempt with the reason.
pub proof fn started_servers_are_asked(
    whisper: StartInternal,
    cactus: StartInternal2,
    sidecar: StartExternal,
    started: Result<(), String>,
    first: StartStep,
    second: StartStep,
    third: StartStep,
)
    requires
        call_ensures(StartInternal::resume, (whisper, started), first),
        call_ensures(StartInternal2::resume, (cactus, started), second),
        call_ensures(StartExternal::resume, (sidecar, started), third),
    ensures
        started is Ok ==> {
            &&& first matches StartStep::QueryStarted(s) && s.source is Internal
            &&& second matches StartStep::QueryStarted(s) && s.source is Internal2
            &&& third matches StartStep::QueryStarted(s) && s.source is External
        },
        started matches Err(reason) ==> {
            &&& ends_with(first, ErrorView::ServerStartFailed(reason@))
            &&& ends_with(second, ErrorView::ServerStartFailed(reason@))
            &&& ends_with(third, ErrorView::ServerStartFailed(reason@))
        },
{
}

/// The answer is the address that the started server reports, and an error
/// exactly where it reports none.
pub proof fn the_answer_is_the_reported_address(
    query: QueryStarted,
    info: Option<ServerInfo>,
    r: StartStep,
)
    requires
        call_ensures(QueryStarted::resume, (query, info), r),
    ensures
        info is Some && info->0.url is Some ==> (r matches StartStep::Done(Ok(url)) && url@
            == info->0.url->0@),
        info is None || info->0.url is None ==> ends_with(
            r,
            ErrorView::ServerStartFailed("empty_health"@),
        ),
{
}

/// The steps of an attempt that is carried out are those of the attempt with
/// the same answers: it begins with the first of them, and `resume` gives the
/// one that follows.
pub proof fn resumed_steps_follow_each_other(w: StartWorld)
    ensures
        forall|model: LocalModel, platform: Platform, r: StartStep| #[trigger]
            call_ensures(start_server, (model, platform), r) ==> r.deep_view() == start_steps(
                model.deep_view(),
                platform,
                w,
            )[0],
        forall|s: QueryHealth, a: Option<ServerInfo>, r: StartStep| #[trigger]
            call_ensures(QueryHealth::resume, (s, a), r) && w.health == a.deep_view()
                ==> r.deep_view() == next_step(StartStep::QueryHealth(s).deep_view(), w),
        forall|s: CheckDownloaded, a: Result<bool, DownloaderError>, r: StartStep| #[trigger]
            call_ensures(CheckDownloaded::resume, (s, a), r) && w.downloaded == result_view(a)
                ==> r.deep_view() == next_step(StartStep::CheckDownloaded(s).deep_view(), w),
        forall|s: GetSupervisor, a: bool, r: StartStep| #[trigger]
            call_ensures(GetSupervisor::resume, (s, a), r) && w.supervisor == a ==> r.deep_view()
                == next_step(StartStep::GetSupervisor(s).deep_view(), w),
        forall|s: StopAll, a: Result<(), String>, r: StartStep| #[trigger]
            call_ensures(StopAll::resume, (s, a), r) && w.stopped == done_view(a) ==> r.deep_view()
                == next_step(StartStep::StopAll(s).deep_view(), w),
        forall|s: ReadModelsBase, a: Location, r: StartStep| #[trigger]
            call_ensures(ReadModelsBase::resume, (s, a), r) && w.base == a.deep_view()
                ==> r.deep_view() == next_step(StartStep::ReadModelsBase(s).deep_view(), w),
        forall|s: ReadDevice, a: Option<String>, f: String, r: StartStep| #[trigger]
            call_ensures(ReadDevice::resume, (s, a, f), r) && w.base_url == a.deep_view()
                && w.fingerprint == f@ ==> r.deep_view() == next_step(
                StartStep::ReadDevice(s).deep_view(),
                w,
            ),
        forall|s: ReadApiKey, a: Option<String>, r: StartStep| #[trigger]
            call_ensures(ReadApiKey::resume, (s, a), r) && w.key == a.deep_view() ==> r.deep_view()
                == next_step(StartStep::ReadApiKey(s).deep_view(), w),
        forall|s: FindPort, a: Option<u16>, r: StartStep| #[trigger]
            call_ensures(FindPort::resume, (s, a), r) && w.port == a ==> r.deep_view()
                == next_step(StartStep::FindPort(s).deep_view(), w),
        forall|s: StartInternal, a: Result<(), String>, r: StartStep| #[trigger]
            call_ensures(StartInternal::resume, (s, a), r) && w.started == done_view(a)
                ==> r.deep_view() == next_step(StartStep::StartInternal(s).deep_view(), w),
        forall|s: StartInternal2, a: Result<(), String>, r: StartStep| #[trigger]
            call_ensures(StartInternal2::resume, (s, a), r) && w.started == done_view(a)
                ==> r.deep_view() == next_step(StartStep::StartInternal2(s).deep_view(), w),
        forall|s: StartExternal, a: Result<(), String>, r: StartStep| #[trigger]
            call_ensures(StartExternal::resume, (s, a), r) && w.started == done_view(a)
                ==> r.deep_view() == next_step(StartStep::StartExternal(s).deep_view(), w),
        forall|s: QueryStarted, a: Option<ServerInfo>, r: StartStep| #[trigger]
            call_ensures(QueryStarted::resume, (s, a), r) && w.started_health == a.deep_view()
                ==> r.deep_view() == next_step(StartStep::QueryStarted(s).deep_view(), w),
{
}

} // verus!
