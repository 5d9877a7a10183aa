use local_stt::error::{DownloaderError, Error};
use local_stt::health::HealthSource;
use local_stt::plugin::LocalStt;
use local_stt::location::{Location, Root};
use local_stt::model::{LocalModel, Platform, ServerInfo, ServerStatus};
use local_stt::start::{cactus_config, sidecar_command, StartStep};

fn text(s: &str) -> String {
    s.to_string()
}

fn am() -> LocalModel {
    LocalModel::Am(text("parakeet"))
}

fn whisper() -> LocalModel {
    LocalModel::Whisper(text("tiny"))
}

fn cactus() -> LocalModel {
    LocalModel::Cactus(text("small"))
}

fn all() -> Platform {
    Platform { whisper_cpp: true, aarch64: true, debug_assertions: false }
}

fn nothing() -> Platform {
    Platform { whisper_cpp: false, aarch64: false, debug_assertions: false }
}

fn info(url: Option<&str>, model: Option<LocalModel>) -> Option<ServerInfo> {
    Some(ServerInfo { url: url.map(text), status: ServerStatus::Ready, model })
}

/// What the outside answers.
struct World {
    health: Option<ServerInfo>,
    downloaded: Result<bool, DownloaderError>,
    supervisor: bool,
    stopped: Result<(), String>,
    key: Option<String>,
    port: Option<u16>,
    started: Result<(), String>,
    started_health: Option<ServerInfo>,
}

fn world() -> World {
    World {
        health: None,
        downloaded: Ok(true),
        supervisor: true,
        stopped: Ok(()),
        key: Some(text("secret")),
        port: Some(4242),
        started: Ok(()),
        started_health: info(Some("http://localhost:4242"), None),
    }
}

fn base() -> Location {
    Location::at(Root::Custom(text("/models")))
}

/// Runs an attempt, and gives its answer and what was done on the way.
fn run(p: Platform, model: LocalModel, w: World) -> (Result<String, Error>, Vec<String>) {
    let mut w = w;
    let mut log = Vec::new();
    let mut step = LocalStt::start_server(p, model);
    loop {
        step = match step {
            StartStep::QueryHealth(s) => {
                log.push(format!("ask {:?}", s.source));
                s.resume(w.health.take())
            }
            StartStep::CheckDownloaded(s) => {
                log.push(text("downloaded?"));
                let downloaded = std::mem::replace(&mut w.downloaded, Ok(true));
                s.resume(downloaded)
            }
            StartStep::GetSupervisor(s) => {
                log.push(text("supervisor?"));
                s.resume(w.supervisor)
            }
            StartStep::StopAll(s) => {
                log.push(text("stop all"));
                s.resume(w.stopped.clone())
            }
            StartStep::ReadModelsBase(s) => s.resume(base()),
            StartStep::ReadDevice(s) => s.resume(Some(text("https://cloud")), text("device")),
            StartStep::ReadApiKey(s) => s.resume(w.key.clone()),
            StartStep::FindPort(s) => s.resume(w.port),
            StartStep::StartInternal(s) => {
                assert_eq!(s.cache_dir, base().join("stt"));
                log.push(format!("start whisper {}", s.model));
                s.resume(w.started.clone())
            }
            StartStep::StartInternal2(s) => {
                assert_eq!(s.cache_dir, base().join("cactus"));
                assert_eq!(s.config, cactus_config(Some(text("https://cloud")), text("device")));
                log.push(format!("start cactus {}", s.model));
                s.resume(w.started.clone())
            }
            StartStep::StartExternal(s) => {
                assert_eq!(s.data_dir, base().join("stt"));
                assert_eq!(s.command, sidecar_command(p.debug_assertions));
                log.push(format!("start sidecar {} {} {}", s.model, s.am_key, s.port));
                s.resume(w.started.clone())
            }
            StartStep::QueryStarted(s) => {
                log.push(format!("ask {:?}", s.source));
                s.resume(w.started_health.take())
            }
            StartStep::Done(answer) => return (answer, log),
        };
    }
}

fn url() -> Result<String, Error> {
    Ok(text("http://localhost:4242"))
}

fn start_failed(reason: &str) -> Result<String, Error> {
    Err(Error::ServerStartFailed(text(reason)))
}

#[test]
fn an_external_server_is_started() {
    let (answer, log) = run(nothing(), am(), world());
    assert_eq!(answer, url());
    assert_eq!(
        log,
        vec![
            "ask External",
            "downloaded?",
            "supervisor?",
            "stop all",
            "start sidecar parakeet secret 4242",
            "ask External",
        ]
    );
}

#[test]
fn a_whisper_server_is_started() {
    let (answer, log) = run(all(), whisper(), world());
    assert_eq!(answer, url());
    assert_eq!(
        log,
        vec!["ask Internal", "supervisor?", "stop all", "start whisper tiny", "ask Internal"]
    );
}

#[test]
fn a_cactus_server_is_started() {
    let (answer, log) = run(all(), cactus(), world());
    assert_eq!(answer, url());
    assert_eq!(
        log,
        vec!["ask Internal2", "supervisor?", "stop all", "start cactus small", "ask Internal2"]
    );
}

#[test]
fn the_servers_are_stopped_once() {
    for model in [am(), whisper(), cactus()] {
        let (_, log) = run(all(), model, world());
        assert_eq!(log.iter().filter(|done| *done == "stop all").count(), 1);
    }
}

#[test]
fn language_models_are_refused_at_once() {
    for model in [LocalModel::GgufLlm(text("llama")), LocalModel::CactusLlm(text("lfm"))] {
        let (answer, log) = run(all(), model, world());
        assert_eq!(answer, Err(Error::UnsupportedModelType));
        assert!(log.is_empty());
    }
}

#[test]
fn a_running_server_is_used_again() {
    let mut w = world();
    w.health = info(Some("http://already"), Some(am()));
    let (answer, log) = run(nothing(), am(), w);
    assert_eq!(answer, Ok(text("http://already")));
    assert_eq!(log, vec!["ask External"]);
}

#[test]
fn a_running_server_without_an_address_is_an_error() {
    let mut w = world();
    w.health = info(None, Some(whisper()));
    let (answer, log) = run(all(), whisper(), w);
    assert_eq!(answer, start_failed("missing_health_url"));
    assert_eq!(log, vec!["ask Internal"]);
}

#[test]
fn a_server_of_another_model_is_replaced() {
    for other in [Some(LocalModel::Am(text("other"))), Some(LocalModel::Whisper(text("parakeet"))), None] {
        let mut w = world();
        w.health = info(Some("http://other"), other);
        let (answer, log) = run(nothing(), am(), w);
        assert_eq!(answer, url());
        assert!(log.contains(&text("stop all")));
    }
}

#[test]
fn the_second_start_starts_nothing() {
    let mut w = world();
    w.started_health = info(Some("http://here"), Some(cactus()));
    let (first, _) = run(all(), cactus(), w);
    let mut w = world();
    w.health = info(Some("http://here"), Some(cactus()));
    let (second, log) = run(all(), cactus(), w);
    assert_eq!(first, second);
    assert_eq!(log, vec!["ask Internal2"]);
}

#[test]
fn external_models_must_be_downloaded() {
    let mut w = world();
    w.downloaded = Ok(false);
    let (answer, log) = run(nothing(), am(), w);
    assert_eq!(answer, Err(Error::ModelNotDownloaded));
    assert_eq!(log, vec!["ask External", "downloaded?"]);

    let mut w = world();
    w.downloaded = Err(DownloaderError::Other(text("offline")));
    let (answer, _) = run(nothing(), am(), w);
    assert_eq!(
        answer,
        Err(Error::ModelDownloaderError(DownloaderError::Other(text("offline"))))
    );
}

#[test]
fn internal_models_need_no_download_check() {
    let mut w = world();
    w.downloaded = Ok(false);
    assert_eq!(run(all(), whisper(), w).0, url());
}

#[test]
fn starting_needs_a_supervisor() {
    let mut w = world();
    w.supervisor = false;
    let (answer, log) = run(all(), whisper(), w);
    assert_eq!(answer, Err(Error::SupervisorNotFound));
    assert_eq!(log, vec!["ask Internal", "supervisor?"]);
}

#[test]
fn servers_that_do_not_stop_end_the_attempt() {
    let mut w = world();
    w.stopped = Err(text("stuck"));
    let (answer, log) = run(all(), whisper(), w);
    assert_eq!(answer, Err(Error::ServerStopFailed(text("stuck"))));
    assert_eq!(log, vec!["ask Internal", "supervisor?", "stop all"]);
}

#[test]
fn unsupported_engines_are_refused_after_the_servers_stopped() {
    for model in [whisper(), cactus()] {
        let (answer, log) = run(nothing(), model, world());
        assert_eq!(answer, Err(Error::UnsupportedModelType));
        assert_eq!(log, vec!["supervisor?", "stop all"]);
    }
    let arm = Platform { whisper_cpp: false, aarch64: true, debug_assertions: false };
    assert_eq!(run(arm, whisper(), world()).0, Err(Error::UnsupportedModelType));
    let intel = Platform { whisper_cpp: true, aarch64: false, debug_assertions: false };
    assert_eq!(run(intel, cactus(), world()).0, Err(Error::UnsupportedModelType));
    assert_eq!(run(intel, whisper(), world()).0, url());
}

#[test]
fn the_key_must_not_be_empty() {
    for key in [None, Some(text(""))] {
        let mut w = world();
        w.key = key;
        assert_eq!(run(nothing(), am(), w).0, Err(Error::AmApiKeyNotSet));
    }
}

#[test]
fn a_free_port_is_needed() {
    let mut w = world();
    w.port = None;
    assert_eq!(run(nothing(), am(), w).0, start_failed("failed_to_find_free_port"));
}

#[test]
fn a_server_that_does_not_start_is_an_error() {
    for model in [am(), whisper(), cactus()] {
        let mut w = world();
        w.started = Err(text("crashed"));
        assert_eq!(run(all(), model, w).0, start_failed("crashed"));
    }
}

#[test]
fn a_started_server_must_report_its_address() {
    for health in [None, info(None, Some(am()))] {
        let mut w = world();
        w.started_health = health;
        assert_eq!(run(nothing(), am(), w).0, start_failed("empty_health"));
    }
}

#[test]
fn the_sidecar_is_talkative_in_debug_builds() {
    assert_eq!(sidecar_command(false).program, "char-sidecar-stt");
    assert_eq!(sidecar_command(false).args, vec!["serve", "--any-token"]);
    assert_eq!(sidecar_command(true).program, "char-sidecar-stt");
    assert_eq!(sidecar_command(true).args, vec!["serve", "--any-token", "-v", "-d"]);
}

#[test]
fn the_cloud_learns_the_fingerprint() {
    let config = cactus_config(None, text("abc"));
    assert_eq!(config.base_url, None);
    assert_eq!(config.headers, vec![(text("x-device-fingerprint"), text("abc"))]);
}

#[test]
fn the_server_that_is_asked_matches_the_model() {
    match LocalStt::start_server(all(), cactus()) {
        StartStep::QueryHealth(s) => {
            assert_eq!(s.source, HealthSource::Internal2);
            assert_eq!(s.model, cactus());
        }
        _ => panic!("no question"),
    }
}
