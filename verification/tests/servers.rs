use local_stt::error::Error;
use local_stt::health::HealthSource::{External, Internal, Internal2};
use local_stt::health::{
    ask_found, find_server, health_for_model, internal_health_for_model, reported_health,
    ActorNames, HealthSource, HEALTH_TIMEOUT_MS,
};
use local_stt::plugin::LocalStt;
use local_stt::model::{LocalModel, Platform, ServerInfo, ServerStatus, ServerType};
use local_stt::servers::{lookup_answer, LookupStep, Servers, ServersStep, StopStep};
use ractor::{Actor, ActorProcessingErr, ActorRef};

fn text(s: &str) -> String {
    s.to_string()
}

fn platform(whisper_cpp: bool, aarch64: bool) -> Platform {
    Platform { whisper_cpp, aarch64, debug_assertions: false }
}

fn info(url: &str) -> ServerInfo {
    ServerInfo { url: Some(text(url)), status: ServerStatus::Ready, model: None }
}

fn unreachable() -> ServerInfo {
    ServerInfo { url: None, status: ServerStatus::Unreachable, model: None }
}

fn names() -> ActorNames {
    ActorNames {
        internal: text("test_internal"),
        internal2: text("test_internal2"),
        external: text("test_external"),
    }
}

/// Looks at every server; the given ones report, and the questions are noted.
fn look(p: Platform, reporting: &[HealthSource]) -> (Servers, Vec<HealthSource>) {
    let mut asked = Vec::new();
    let mut ask = |source: HealthSource| {
        asked.push(source);
        if reporting.contains(&source) {
            Some(info(&format!("{source:?}")))
        } else {
            None
        }
    };
    let mut step = LocalStt::get_servers(p);
    loop {
        step = match step {
            ServersStep::QueryInternal(s) => s.resume(ask(HealthSource::Internal)),
            ServersStep::QueryInternal2(s) => s.resume(ask(HealthSource::Internal2)),
            ServersStep::QueryExternal(s) => s.resume(ask(HealthSource::External)),
            ServersStep::Done(servers) => return (servers, asked),
        };
    }
}

#[test]
fn silent_servers_are_unreachable() {
    let (servers, _) = look(platform(true, true), &[]);
    assert_eq!(servers, Servers { internal: unreachable(), external: unreachable() });
    assert_eq!(ServerInfo::unreachable(), unreachable());
}

#[test]
fn the_whisper_server_comes_before_the_cactus_server() {
    let (servers, asked) = look(platform(true, true), &[Internal, Internal2, External]);
    assert_eq!(servers.get(ServerType::Internal), &info("Internal"));
    assert_eq!(servers.get(ServerType::External), &info("External"));
    assert_eq!(asked, vec![Internal, External]);
}

#[test]
fn the_cactus_server_is_asked_where_whisper_is_silent() {
    let (servers, asked) = look(platform(true, true), &[Internal2]);
    assert_eq!(servers.internal, info("Internal2"));
    assert_eq!(servers.external, unreachable());
    assert_eq!(asked, vec![Internal, Internal2, External]);
}

#[test]
fn servers_that_the_platform_lacks_are_not_asked() {
    let all = [Internal, Internal2, External];
    assert_eq!(look(platform(false, false), &all).1, vec![External]);
    assert_eq!(look(platform(false, true), &all).1, vec![Internal2, External]);
    assert_eq!(look(platform(true, false), &[]).1, vec![Internal, External]);
}

#[test]
fn each_model_is_looked_for_at_its_server() {
    let whisper = LocalModel::Whisper(text("tiny"));
    let cactus = LocalModel::Cactus(text("small"));
    let am = LocalModel::Am(text("parakeet"));
    let p = platform(true, true);
    assert_eq!(health_for_model(&whisper, p), Some(HealthSource::Internal));
    assert_eq!(health_for_model(&cactus, p), Some(HealthSource::Internal2));
    assert_eq!(health_for_model(&am, p), Some(HealthSource::External));
    assert_eq!(internal_health_for_model(&am, p), None);
    assert_eq!(health_for_model(&whisper, platform(false, true)), None);
    assert_eq!(health_for_model(&cactus, platform(true, false)), None);
    assert_eq!(health_for_model(&am, platform(false, false)), Some(HealthSource::External));
    assert_eq!(health_for_model(&LocalModel::GgufLlm(text("llama")), p), None);
}

#[test]
fn the_server_of_a_model_reports_as_it_is() {
    let am = LocalModel::Am(text("parakeet"));
    let p = platform(false, false);
    assert_eq!(LocalStt::get_server_for_model(p, &am), LookupStep::Query(HealthSource::External));
    assert_eq!(lookup_answer(Some(info("u"))), LookupStep::Done(Ok(Some(info("u")))));
    assert_eq!(lookup_answer(None), LookupStep::Done(Ok(None)));
}

#[test]
fn a_model_without_a_server_has_no_report() {
    let whisper = LocalModel::Whisper(text("tiny"));
    assert_eq!(
        LocalStt::get_server_for_model(platform(false, false), &whisper),
        LookupStep::Done(Ok(None))
    );
    let llm = LocalModel::CactusLlm(text("lfm"));
    assert_eq!(
        LocalStt::get_server_for_model(platform(true, true), &llm),
        LookupStep::Done(Err(Error::UnsupportedModelType))
    );
}

/// Stops servers and gives the answer and what the supervisor was told.
fn stop(
    server_type: Option<ServerType>,
    supervisor: bool,
    stopped: Result<(), String>,
) -> (Result<bool, Error>, Vec<Option<ServerType>>) {
    let mut told = Vec::new();
    let mut step = LocalStt::stop_server(server_type);
    loop {
        step = match step {
            StopStep::FindSupervisor(s) => s.resume(supervisor),
            StopStep::Stop(s) => {
                told.push(s.server_type);
                s.resume(stopped.clone())
            }
            StopStep::Done(answer) => return (answer, told),
        };
    }
}

#[test]
fn servers_are_stopped_by_the_supervisor() {
    let external = Some(ServerType::External);
    assert_eq!(stop(external, true, Ok(())), (Ok(true), vec![external]));
    assert_eq!(stop(None, true, Ok(())), (Ok(true), vec![None]));
    assert_eq!(stop(None, false, Ok(())), (Err(Error::SupervisorNotFound), vec![]));
    assert_eq!(
        stop(external, true, Err(text("busy"))),
        (Err(Error::ServerStopFailed(text("busy"))), vec![external])
    );
}

#[test]
fn a_missing_supervisor_is_an_error() {
    assert_eq!(LocalStt::get_supervisor(Some(7u8)), Ok(7u8));
    assert_eq!(LocalStt::get_supervisor::<u8>(None), Err(Error::SupervisorNotFound));
}

#[test]
fn failed_reports_count_as_none() {
    assert_eq!(reported_health(Ok(info("u"))), Some(info("u")));
    assert_eq!(reported_health(Err(text("timeout"))), None);
}

#[test]
fn names_belong_to_servers() {
    assert_eq!(names().of(HealthSource::Internal), "test_internal");
    assert_eq!(names().of(HealthSource::Internal2), "test_internal2");
    assert_eq!(names().of(HealthSource::External), "test_external");
}

struct Idle;

impl Actor for Idle {
    type Msg = ();
    type State = ();
    type Arguments = ();

    async fn pre_start(
        &self,
        _myself: ActorRef<Self::Msg>,
        _args: Self::Arguments,
    ) -> Result<Self::State, ActorProcessingErr> {
        Ok(())
    }
}

#[test]
fn a_server_that_is_not_running_is_not_asked() {
    assert!(ask_found(None).is_none());
}

#[test]
fn running_servers_are_found_by_name() {
    let runtime = tokio::runtime::Builder::new_current_thread().build().unwrap();
    runtime.block_on(async {
        assert!(find_server(&names(), HealthSource::Internal).is_none());
        let (actor, handle) = Actor::spawn(Some(text("test_internal")), Idle, ()).await.unwrap();
        let ask = find_server(&names(), HealthSource::Internal).unwrap();
        assert_eq!(ask.timeout_ms, HEALTH_TIMEOUT_MS);
        assert_eq!(ask.timeout_ms, 10 * 1000);
        assert_eq!(ask.server.name(), "test_internal");
        let found = ask.server.into_actor();
        assert_eq!(found.get_name(), Some(text("test_internal")));
        assert_eq!(found.get_id(), actor.get_id());
        assert!(find_server(&names(), HealthSource::External).is_none());
        actor.stop(None);
        handle.await.unwrap();
        assert!(find_server(&names(), HealthSource::Internal).is_none());
    });
}
