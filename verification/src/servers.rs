//! How servers are looked at and stopped.

use vstd::prelude::*;

use crate::error::{done_view, Error, ErrorView};
use crate::health::{health_for_model, health_source, HealthSource};
use crate::model::{
    ensure_stt_model, is_stt, unreachable_info, LocalModel, ModelView, Platform, ServerInfo,
    ServerInfoView, ServerType,
};

verus! {

/// What to do next to look at the server of a model.
#[derive(Debug, PartialEq, Eq)]
pub enum LookupStep {
    /// Ask this server for its health, and hand the report to
    /// [`lookup_answer`].
    Query(HealthSource),
    /// The answer: what the server reports, if it reports anything.
    Done(Result<Option<ServerInfo>, Error>),
}

/// The value of a [`LookupStep`].
pub enum LookupStepView {
    Query(HealthSource),
    Done(Result<Option<ServerInfoView>, ErrorView>),
}

impl DeepView for LookupStep {
    type V = LookupStepView;

    open spec fn deep_view(&self) -> LookupStepView {
        match self {
            LookupStep::Query(source) => LookupStepView::Query(*source),
            LookupStep::Done(Ok(info)) => LookupStepView::Done(Ok(info.deep_view())),
            LookupStep::Done(Err(e)) => LookupStepView::Done(Err(e.deep_view())),
        }
    }
}

impl LookupStepView {
    /// The first step: the server of the model is asked, if this platform
    /// has one; a model that does not transcribe speech is refused.
    pub open spec fn first(model: ModelView, platform: Platform) -> LookupStepView {
        if !is_stt(model) {
            LookupStepView::Done(Err(ErrorView::UnsupportedModelType))
        } else {
            match health_source(model, platform) {
                Some(source) => LookupStepView::Query(source),
                None => LookupStepView::Done(Ok(None)),
            }
        }
    }
}

/// The first step to look at the server of `model`.
pub fn lookup_server(model: &LocalModel, platform: Platform) -> (r: LookupStep)
    ensures
        r.deep_view() == LookupStepView::first(model.deep_view(), platform),
{
    match ensure_stt_model(model) {
        Ok(_) => match health_for_model(model, platform) {
            Some(source) => LookupStep::Query(source),
            None => LookupStep::Done(Ok(None)),
        },
        Err(e) => LookupStep::Done(Err(e)),
    }
}

/// The answer is the report of the server as it is.
pub fn lookup_answer(info: Option<ServerInfo>) -> (r: LookupStep)
    ensures
        r.deep_view() == LookupStepView::Done(Ok(info.deep_view())),
{
    LookupStep::Done(Ok(info))
}

/// What is known of the server of each kind.
#[derive(Debug, PartialEq, Eq)]
pub struct Servers {
    pub internal: ServerInfo,
    pub external: ServerInfo,
}

impl DeepView for Servers {
    type V = Map<ServerType, ServerInfoView>;

    open spec fn deep_view(&self) -> Map<ServerType, ServerInfoView> {
        map![
            ServerType::Internal => self.internal.deep_view(),
            ServerType::External => self.external.deep_view(),
        ]
    }
}

impl Servers {
    /// What is known of the server of kind `t`.
    pub fn get(&self, t: ServerType) -> (r: &ServerInfo)
        ensures
            self.deep_view().contains_key(t),
            r.deep_view() == self.deep_view()[t],
            t is Internal ==> *r == self.internal,
            t is External ==> *r == self.external,
    {
        match t {
            ServerType::Internal => &self.internal,
            ServerType::External => &self.external,
        }
    }
}

/// Ask the server of the whisper engine.
#[derive(Debug, PartialEq, Eq)]
pub struct QueryInternal {
    pub platform: Platform,
}

/// Ask the server of the cactus engine.
#[derive(Debug, PartialEq, Eq)]
pub struct QueryInternal2;

/// Ask the sidecar.
#[derive(Debug, PartialEq, Eq)]
pub struct QueryExternal {
    /// What the server inside this process reported.
    pub internal: Option<ServerInfo>,
}

/// What to do next to look at every server.
#[derive(Debug, PartialEq, Eq)]
pub enum ServersStep {
    QueryInternal(QueryInternal),
    QueryInternal2(QueryInternal2),
    QueryExternal(QueryExternal),
    /// The answer: what is known of each server.
    Done(Servers),
}

/// The value of a [`ServersStep`].
pub enum ServersStepView {
    QueryInternal { platform: Platform },
    QueryInternal2,
    QueryExternal { internal: Option<ServerInfoView> },
    Done(Map<ServerType, ServerInfoView>),
}

impl DeepView for ServersStep {
    type V = ServersStepView;

    open spec fn deep_view(&self) -> ServersStepView {
        match self {
            ServersStep::QueryInternal(s) => ServersStepView::QueryInternal {
                platform: s.platform,
            },
            ServersStep::QueryInternal2(_) => ServersStepView::QueryInternal2,
            ServersStep::QueryExternal(s) => ServersStepView::QueryExternal {
                internal: s.internal.deep_view(),
            },
            ServersStep::Done(servers) => ServersStepView::Done(servers.deep_view()),
        }
    }
}

/// A report, or else that the server does not answer.
pub open spec fn report_or_unreachable(info: Option<ServerInfoView>) -> ServerInfoView {
    match info {
        Some(info) => info,
        None => unreachable_info(),
    }
}

fn or_unreachable(info: Option<ServerInfo>) -> (r: ServerInfo)
    ensures
        r.deep_view() == report_or_unreachable(info.deep_view()),
{
    match info {
        Some(info) => info,
        None => ServerInfo::unreachable(),
    }
}

/// A server for each kind, from the reports of the servers.
pub open spec fn servers_of(
    internal: Option<ServerInfoView>,
    external: Option<ServerInfoView>,
) -> Map<ServerType, ServerInfoView> {
    map![
        ServerType::Internal => report_or_unreachable(internal),
        ServerType::External => report_or_unreachable(external),
    ]
}

impl ServersStepView {
    /// The first step: the servers inside this process are asked first, that
    /// of the whisper engine before that of the cactus engine.
    pub open spec fn first(platform: Platform) -> ServersStepView {
        if platform.whisper_cpp {
            ServersStepView::QueryInternal { platform }
        } else {
            ServersStepView::after_internal(platform, None)
        }
    }

    /// What follows the report of the server of the whisper engine: that of
    /// the cactus engine is asked only where the first reported nothing.
    pub open spec fn after_internal(
        platform: Platform,
        info: Option<ServerInfoView>,
    ) -> ServersStepView {
        if info is None && platform.aarch64 {
            ServersStepView::QueryInternal2
        } else {
            ServersStepView::QueryExternal { internal: info }
        }
    }
}

/// The first step to look at every server.
pub fn look_at_servers(platform: Platform) -> (r: ServersStep)
    ensures
        r.deep_view() == ServersStepView::first(platform),
{
    if platform.whisper_cpp {
        ServersStep::QueryInternal(QueryInternal { platform })
    } else if platform.aarch64 {
        ServersStep::QueryInternal2(QueryInternal2)
    } else {
        ServersStep::QueryExternal(QueryExternal { internal: None })
    }
}

impl QueryInternal {
    /// Takes what the server reported, if it reported anything.
    pub fn resume(self, info: Option<ServerInfo>) -> (r: ServersStep)
        ensures
            r.deep_view() == ServersStepView::after_internal(self.platform, info.deep_view()),
    {
        if info.is_none() && self.platform.aarch64 {
            ServersStep::QueryInternal2(QueryInternal2)
        } else {
            ServersStep::QueryExternal(QueryExternal { internal: info })
        }
    }
}

impl QueryInternal2 {
    /// Takes what the server reported, if it reported anything.
    pub fn resume(self, info: Option<ServerInfo>) -> (r: ServersStep)
        ensures
            r.deep_view() == (ServersStepView::QueryExternal { internal: info.deep_view() }),
    {
        ServersStep::QueryExternal(QueryExternal { internal: info })
    }
}

impl QueryExternal {
    /// Takes what the server reported, if it reported anything.
    pub fn resume(self, info: Option<ServerInfo>) -> (r: ServersStep)
        ensures
            r.deep_view() == ServersStepView::Done(
                servers_of(self.internal.deep_view(), info.deep_view()),
            ),
    {
        ServersStep::Done(
            Servers { internal: or_unreachable(self.internal), external: or_unreachable(info) },
        )
    }
}

/// Find the supervisor of the servers.
#[derive(Debug, PartialEq, Eq)]
pub struct FindSupervisor {
    pub server_type: Option<ServerType>,
}

/// Have the supervisor stop the server of the given kind, or every server
/// where no kind is given.
#[derive(Debug, PartialEq, Eq)]
pub struct StopServers {
    pub server_type: Option<ServerType>,
}

/// What to do next to stop servers.
#[derive(Debug, PartialEq, Eq)]
pub enum StopStep {
    FindSupervisor(FindSupervisor),
    Stop(StopServers),
    /// The answer: that the servers were stopped.
    Done(Result<bool, Error>),
}

/// The value of a [`StopStep`].
pub enum StopStepView {
    FindSupervisor { server_type: Option<ServerType> },
    Stop { server_type: Option<ServerType> },
    Done(Result<bool, ErrorView>),
}

impl DeepView for StopStep {
    type V = StopStepView;

    open spec fn deep_view(&self) -> StopStepView {
        match self {
            StopStep::FindSupervisor(s) => StopStepView::FindSupervisor {
                server_type: s.server_type,
            },
            StopStep::Stop(s) => StopStepView::Stop { server_type: s.server_type },
            StopStep::Done(Ok(b)) => StopStepView::Done(Ok(*b)),
            StopStep::Done(Err(e)) => StopStepView::Done(Err(e.deep_view())),
        }
    }
}

impl StopStepView {
    /// What follows the search for the supervisor.
    pub open spec fn after_supervisor(
        server_type: Option<ServerType>,
        found: bool,
    ) -> StopStepView {
        if found {
            StopStepView::Stop { server_type }
        } else {
            StopStepView::Done(Err(ErrorView::SupervisorNotFound))
        }
    }

    /// What follows the attempt to stop the servers.
    pub open spec fn after_stop(stopped: Result<(), Seq<char>>) -> StopStepView {
        match stopped {
            Ok(_) => StopStepView::Done(Ok(true)),
            Err(reason) => StopStepView::Done(Err(ErrorView::ServerStopFailed(reason))),
        }
    }
}

impl FindSupervisor {
    /// Takes whether there is a supervisor.
    pub fn resume(self, found: bool) -> (r: StopStep)
        ensures
            r.deep_view() == StopStepView::after_supervisor(self.server_type, found),
    {
        if found {
            StopStep::Stop(StopServers { server_type: self.server_type })
        } else {
            StopStep::Done(Err(Error::SupervisorNotFound))
        }
    }
}

impl StopServers {
    /// Takes whether the servers were stopped.
    pub fn resume(self, stopped: Result<(), String>) -> (r: StopStep)
        ensures
            r.deep_view() == StopStepView::after_stop(done_view(stopped)),
    {
        match stopped {
            Ok(_) => StopStep::Done(Ok(true)),
            Err(reason) => StopStep::Done(Err(Error::ServerStopFailed(reason))),
        }
    }
}

/// The step that follows `step` where it is answered by `found` and
/// `stopped`.
pub open spec fn next_stop_step(
    step: StopStepView,
    found: bool,
    stopped: Result<(), Seq<char>>,
) -> StopStepView {
    match step {
        StopStepView::FindSupervisor { server_type } => StopStepView::after_supervisor(
            server_type,
            found,
        ),
        StopStepView::Stop { .. } => StopStepView::after_stop(stopped),
        StopStepView::Done(_) => step,
    }
}

/// A request to stop servers is answered by `true` or an error, never by
/// `false`. The supervisor is told to stop what was asked for, one kind of
/// server or all of them.
pub proof fn stopping_succeeds_or_fails(
    server_type: Option<ServerType>,
    found: bool,
    stopped: Result<(), Seq<char>>,
)
    ensures
        ({
            let s0 = StopStepView::FindSupervisor { server_type };
            let s1 = next_stop_step(s0, found, stopped);
            let s2 = next_stop_step(s1, found, stopped);
            &&& found ==> s1 == (StopStepView::Stop { server_type })
            &&& s2 == StopStepView::Done(
                if !found {
                    Err(ErrorView::SupervisorNotFound)
                } else if stopped is Err {
                    Err(ErrorView::ServerStopFailed(stopped->Err_0))
                } else {
                    Ok(true)
                },
            )
        }),
{
}

/// What a look at every server finds, where the three servers would report
/// `whisper`, `cactus` and `sidecar`.
pub open spec fn servers_found(
    platform: Platform,
    whisper: Option<ServerInfoView>,
    cactus: Option<ServerInfoView>,
    sidecar: Option<ServerInfoView>,
) -> Map<ServerType, ServerInfoView> {
    let internal = if platform.whisper_cpp && whisper is Some {
        whisper
    } else if platform.aarch64 {
        cactus
    } else {
        None
    };
    servers_of(internal, sidecar)
}

/// The step that follows `step` where the three servers report `whisper`,
/// `cactus` and `sidecar`.
pub open spec fn next_servers_step(
    step: ServersStepView,
    whisper: Option<ServerInfoView>,
    cactus: Option<ServerInfoView>,
    sidecar: Option<ServerInfoView>,
) -> ServersStepView {
    match step {
        ServersStepView::QueryInternal { platform } => ServersStepView::after_internal(
            platform,
            whisper,
        ),
        ServersStepView::QueryInternal2 => ServersStepView::QueryExternal { internal: cactus },
        ServersStepView::QueryExternal { internal } => ServersStepView::Done(
            servers_of(internal, sidecar),
        ),
        ServersStepView::Done(_) => step,
    }
}

/// A look at every server ends after three questions at most. The report of
/// the whisper engine comes before that of the cactus engine, and a server
/// that this platform does not have counts for nothing.
pub proof fn a_look_finds_the_servers(
    platform: Platform,
    whisper: Option<ServerInfoView>,
    cactus: Option<ServerInfoView>,
    sidecar: Option<ServerInfoView>,
)
    ensures
        ({
            let s0 = ServersStepView::first(platform);
            let s1 = next_servers_step(s0, whisper, cactus, sidecar);
            let s2 = next_servers_step(s1, whisper, cactus, sidecar);
            let s3 = next_servers_step(s2, whisper, cactus, sidecar);
            s3 == ServersStepView::Done(servers_found(platform, whisper, cactus, sidecar))
        }),
{
}

/// A look at every server tells what each of them reported. The sidecar is
/// listed as it reports. The server inside this process is listed as the
/// whisper engine reports, where it is built in and reports anything, else as
/// the cactus engine does, where the processor has it. A kind of which
/// nothing was reported is unreachable. Both kinds are listed, and neither
/// depends on the report of the other.
pub proof fn a_look_tells_what_was_reported(
    platform: Platform,
    whisper: Option<ServerInfoView>,
    cactus: Option<ServerInfoView>,
    sidecar: Option<ServerInfoView>,
)
    ensures
        ({
            let s0 = ServersStepView::first(platform);
            let s1 = next_servers_step(s0, whisper, cactus, sidecar);
            let s2 = next_servers_step(s1, whisper, cactus, sidecar);
            let s3 = next_servers_step(s2, whisper, cactus, sidecar);
            let by_whisper = platform.whisper_cpp && whisper is Some;
            let by_cactus = !by_whisper && platform.aarch64 && cactus is Some;
            &&& s3 matches ServersStepView::Done(servers)
            &&& servers.dom() == set![ServerType::Internal, ServerType::External]
            &&& sidecar is Some ==> servers[ServerType::External] == sidecar->0
            &&& sidecar is None ==> servers[ServerType::External].url is None
                && servers[ServerType::External].model is None
                && servers[ServerType::External].status is Unreachable
            &&& by_whisper ==> servers[ServerType::Internal] == whisper->0
            &&& by_cactus ==> servers[ServerType::Internal] == cactus->0
            &&& !by_whisper && !by_cactus ==> servers[ServerType::Internal].url is None
                && servers[ServerType::Internal].model is None
                && servers[ServerType::Internal].status is Unreachable
        }),
{
}

/// Each kind of server is in the answer, and no other key. A kind whose
/// server reports anything is listed with that very report, whatever the
/// server of the other kind reports; one whose server reports nothing is
/// unreachable.
pub proof fn every_kind_of_server_is_listed(
    internal: Option<ServerInfoView>,
    external: Option<ServerInfoView>,
)
    ensures
        forall|t: ServerType| #[trigger] servers_of(internal, external).contains_key(t),
        internal is None ==> servers_of(internal, external)[ServerType::Internal]
            == unreachable_info(),
        external is None ==> servers_of(internal, external)[ServerType::External]
            == unreachable_info(),
        internal is Some ==> servers_of(internal, external)[ServerType::Internal] == internal->0,
        external is Some ==> servers_of(internal, external)[ServerType::External] == external->0,
        unreachable_info().url is None,
        unreachable_info().model is None,
        unreachable_info().status is Unreachable,
{
}

/// What is listed of one kind of server does not change with the report of
/// the other kind.
pub proof fn reports_do_not_mix(
    internal: Option<ServerInfoView>,
    external: Option<ServerInfoView>,
    other: Option<ServerInfoView>,
)
    ensures
        servers_of(internal, external)[ServerType::External] == servers_of(
            other,
            external,
        )[ServerType::External],
        servers_of(internal, external)[ServerType::Internal] == servers_of(
            internal,
            other,
        )[ServerType::Internal],
{
}

/// The last report completes a look: for each kind the entry is the report
/// of that kind, or that the server is unreachable where there is none.
pub proof fn the_last_report_completes_a_look(
    step: QueryExternal,
    sidecar: Option<ServerInfo>,
    r: ServersStep,
)
    requires
        call_ensures(QueryExternal::resume, (step, sidecar), r),
    ensures
        r matches ServersStep::Done(servers) && {
            &&& sidecar matches Some(info) ==> servers.external.deep_view() == info.deep_view()
            &&& step.internal matches Some(info) ==> servers.internal.deep_view()
                == info.deep_view()
            &&& sidecar is None ==> servers.external.url is None && servers.external.model is None
                && servers.external.status is Unreachable
            &&& step.internal is None ==> servers.internal.url is None
                && servers.internal.model is None && servers.internal.status is Unreachable
        },
{
    if let ServersStep::Done(servers) = r {
        let all = servers.deep_view();
        assert(all[ServerType::Internal] == servers.internal.deep_view());
        assert(all[ServerType::External] == servers.external.deep_view());
    }
}

/// Servers are asked in a fixed order: the whisper engine where it is built
/// in, then the cactus engine where the processor has it and the whisper
/// engine reported nothing, and the sidecar in any case. What the engine
/// reported is kept until then.
pub proof fn servers_are_asked_in_order(
    platform: Platform,
    first: ServersStep,
    whisper: QueryInternal,
    by_whisper: Option<ServerInfo>,
    second: ServersStep,
    cactus: QueryInternal2,
    by_cactus: Option<ServerInfo>,
    third: ServersStep,
)
    requires
        call_ensures(look_at_servers, (platform,), first),
        call_ensures(QueryInternal::resume, (whisper, by_whisper), second),
        call_ensures(QueryInternal2::resume, (cactus, by_cactus), third),
    ensures
        platform.whisper_cpp ==> first == ServersStep::QueryInternal(QueryInternal { platform }),
        !platform.whisper_cpp && platform.aarch64 ==> first is QueryInternal2,
        !platform.whisper_cpp && !platform.aarch64 ==> first == ServersStep::QueryExternal(
            QueryExternal { internal: None },
        ),
        by_whisper matches Some(info) ==> second matches ServersStep::QueryExternal(next)
            && next.internal matches Some(kept) && kept.deep_view() == info.deep_view(),
        by_whisper is None && whisper.platform.aarch64 ==> second is QueryInternal2,
        by_whisper is None && !whisper.platform.aarch64 ==> second == ServersStep::QueryExternal(
            QueryExternal { internal: None },
        ),
        by_cactus matches Some(info) ==> third matches ServersStep::QueryExternal(next)
            && next.internal matches Some(kept) && kept.deep_view() == info.deep_view(),
        by_cactus is None ==> third == ServersStep::QueryExternal(QueryExternal { internal: None }),
{
}

/// What is listed of a kind of server is found again by that kind.
pub proof fn servers_are_found_by_kind(servers: Servers, t: ServerType, r: &ServerInfo)
    requires
        call_ensures(Servers::get, (&servers, t), r),
    ensures
        t is Internal ==> *r == servers.internal,
        t is External ==> *r == servers.external,
        servers.deep_view()[ServerType::Internal] == servers.internal.deep_view(),
        servers.deep_view()[ServerType::External] == servers.external.deep_view(),
{
}

/// A server that is looked at is the one that would be started: the question
/// about a model goes to the same server in both cases, and whenever a start
/// begins with a question, so does a look.
pub proof fn lookup_and_start_ask_the_same_server(model: ModelView, platform: Platform)
    ensures
        LookupStepView::first(model, platform) matches LookupStepView::Query(source)
            ==> crate::start::StartStepView::first(model, platform)
            == (crate::start::StartStepView::QueryHealth { model, platform, source }),
        crate::start::StartStepView::first(model, platform) matches
            crate::start::StartStepView::QueryHealth { source, .. } ==> LookupStepView::first(
            model,
            platform,
        ) == LookupStepView::Query(source),
{
}

/// A look at the server of a model asks the sidecar, the whisper engine or
/// the cactus engine, as the model has it. Where the platform lacks the
/// engine, nothing is reported; a language model is refused. The answer is
/// the report as it came.
pub proof fn a_look_asks_the_server_of_the_model(
    model: LocalModel,
    platform: Platform,
    first: LookupStep,
    info: Option<ServerInfo>,
    last: LookupStep,
)
    requires
        call_ensures(lookup_server, (&model, platform), first),
        call_ensures(lookup_answer, (info,), last),
    ensures
        model is Am ==> first == LookupStep::Query(HealthSource::External),
        model is Whisper && platform.whisper_cpp ==> first == LookupStep::Query(
            HealthSource::Internal,
        ),
        model is Cactus && platform.aarch64 ==> first == LookupStep::Query(HealthSource::Internal2),
        model is Whisper && !platform.whisper_cpp ==> first matches LookupStep::Done(Ok(None)),
        model is Cactus && !platform.aarch64 ==> first matches LookupStep::Done(Ok(None)),
        model is GgufLlm || model is CactusLlm ==> first matches LookupStep::Done(
            Err(Error::UnsupportedModelType),
        ),
        last matches LookupStep::Done(Ok(answer)) && answer.deep_view() == info.deep_view(),
{
}

/// A request to stop servers needs a supervisor, which is then told to stop
/// what was asked for. The answer is `true` once the servers were stopped,
/// or the reason why they were not.
pub proof fn what_is_asked_for_is_stopped(
    find: FindSupervisor,
    found: bool,
    second: StopStep,
    stop: StopServers,
    stopped: Result<(), String>,
    last: StopStep,
)
    requires
        call_ensures(FindSupervisor::resume, (find, found), second),
        call_ensures(StopServers::resume, (stop, stopped), last),
    ensures
        found ==> second == StopStep::Stop(StopServers { server_type: find.server_type }),
        !found ==> second matches StopStep::Done(Err(Error::SupervisorNotFound)),
        stopped is Ok ==> last matches StopStep::Done(Ok(true)),
        stopped matches Err(reason) ==> last matches StopStep::Done(
            Err(Error::ServerStopFailed(told)),
        ) && told@ == reason@,
{
}

} // verus!
