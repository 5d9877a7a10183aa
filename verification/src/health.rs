//! Which server is asked for its health, and how.

use vstd::prelude::*;

use crate::model::{LocalModel, ModelView, Platform, ServerInfo};
use crate::registry::{where_is, RegisteredActor};

verus! {

/// How long a server may take to report its health, in milliseconds.
pub const HEALTH_TIMEOUT_MS: u64 = 10_000;

/// The servers that can be asked for their health.
#[derive(Debug, Clone, Copy, PartialEq, Eq, Structural)]
pub enum HealthSource {
    /// The server of the whisper engine.
    Internal,
    /// The server of the cactus engine.
    Internal2,
    /// The sidecar process.
    External,
}

/// The names under which the servers are registered.
#[derive(Debug, PartialEq, Eq)]
pub struct ActorNames {
    pub internal: String,
    pub internal2: String,
    pub external: String,
}

impl ActorNames {
    /// The name of the server `source`.
    pub open spec fn name_of(self, source: HealthSource) -> Seq<char> {
        match source {
            HealthSource::Internal => self.internal@,
            HealthSource::Internal2 => self.internal2@,
            HealthSource::External => self.external@,
        }
    }

    /// The name of the server `source`.
    pub fn of(&self, source: HealthSource) -> (r: &str)
        ensures
            r@ == self.name_of(source),
    {
        match source {
            HealthSource::Internal => self.internal.as_str(),
            HealthSource::Internal2 => self.internal2.as_str(),
            HealthSource::External => self.external.as_str(),
        }
    }
}

/// Ask `server` for its health and wait no longer than `timeout_ms`.
#[derive(Debug)]
pub struct AskHealth {
    pub server: RegisteredActor,
    pub timeout_ms: u64,
}

/// A server that was found is asked; one that is not running has no health.
pub fn ask_found(found: Option<RegisteredActor>) -> (r: Option<AskHealth>)
    ensures
        match found {
            Some(server) => r == Some(AskHealth { server, timeout_ms: HEALTH_TIMEOUT_MS }),
            None => r is None,
        },
{
    match found {
        Some(server) => Some(AskHealth { server, timeout_ms: HEALTH_TIMEOUT_MS }),
        None => None,
    }
}

/// Whether looking up `name` in the registry of actors gave `found`. What a
/// lookup gives is up to the process, so this is known only of a lookup that
/// was made.
pub closed spec fn lookup_gave(name: Seq<char>, found: Option<RegisteredActor>) -> bool {
    exists|text: &str| text@ == name && #[trigger] call_ensures(where_is, (text,), found)
}

/// Looks up the server `source` under its name. Where it runs, it is to be
/// asked for its health; otherwise it has none.
pub fn find_server(names: &ActorNames, source: HealthSource) -> (r: Option<AskHealth>)
    ensures
        r matches Some(ask) ==> ask.server.found_under() == names.name_of(source) && ask.timeout_ms
            == HEALTH_TIMEOUT_MS,
        exists|found: Option<RegisteredActor>| #[trigger]
            lookup_gave(names.name_of(source), found) && match found {
                Some(server) => r == Some(AskHealth { server, timeout_ms: HEALTH_TIMEOUT_MS }),
                None => r is None,
            },
{
    let found = where_is(names.of(source));
    assert(lookup_gave(names.name_of(source), found));
    ask_found(found)
}

/// What a server that was asked reported; an answer that failed or came too
/// late counts as none.
pub fn reported_health(reply: Result<ServerInfo, String>) -> (r: Option<ServerInfo>)
    ensures
        match reply {
            Ok(info) => r == Some(info),
            Err(_) => r is None,
        },
{
    reply.ok()
}

/// The server inside this process that runs `model`, if this platform has it.
pub open spec fn internal_source(model: ModelView, platform: Platform) -> Option<HealthSource> {
    match model {
        ModelView::Whisper(_) if platform.whisper_cpp => Some(HealthSource::Internal),
        ModelView::Cactus(_) if platform.aarch64 => Some(HealthSource::Internal2),
        _ => None,
    }
}

/// The server inside this process to ask about `model`; `None` where there
/// is none to ask.
pub fn internal_health_for_model(model: &LocalModel, platform: Platform) -> (r: Option<
    HealthSource,
>)
    ensures
        r == internal_source(model.deep_view(), platform),
{
    match model {
        LocalModel::Whisper(_) => if platform.whisper_cpp {
            Some(HealthSource::Internal)
        } else {
            None
        },
        LocalModel::Cactus(_) => if platform.aarch64 {
            Some(HealthSource::Internal2)
        } else {
            None
        },
        LocalModel::Am(_) | LocalModel::GgufLlm(_) | LocalModel::CactusLlm(_) => None,
    }
}

/// The server to ask about `model`, inside this process or not.
pub open spec fn health_source(model: ModelView, platform: Platform) -> Option<HealthSource> {
    if model is Am {
        Some(HealthSource::External)
    } else {
        internal_source(model, platform)
    }
}

/// The server to ask about `model`; `None` where there is none to ask.
pub fn health_for_model(model: &LocalModel, platform: Platform) -> (r: Option<HealthSource>)
    ensures
        r == health_source(model.deep_view(), platform),
{
    match model {
        LocalModel::Am(_) => Some(HealthSource::External),
        _ => internal_health_for_model(model, platform),
    }
}

/// Nothing is known of a lookup but what the registry was asked and gave.
proof fn lookups_are_made_in_the_registry(name: Seq<char>, found: Option<RegisteredActor>)
    ensures
        lookup_gave(name, found) <==> exists|text: &str|
            text@ == name && #[trigger] call_ensures(where_is, (text,), found),
{
}

/// An actor that a lookup gave was found under the name that was looked up.
pub proof fn lookups_find_by_name(name: Seq<char>, found: Option<RegisteredActor>)
    requires
        lookup_gave(name, found),
    ensures
        found matches Some(actor) ==> actor.found_under() == name,
{
}

/// Whether `r` is the outcome of looking up `name`: an actor that was found is
/// asked, that very one, with ten seconds to answer, and otherwise nobody is.
pub open spec fn asks_what_was_found(name: Seq<char>, r: Option<AskHealth>) -> bool {
    exists|found: Option<RegisteredActor>|
        {
            &&& #[trigger] lookup_gave(name, found)
            &&& r is Some <==> found is Some
            &&& r matches Some(ask) ==> found == Some(ask.server) && ask.timeout_ms == 10_000
        }
}

/// A server is asked exactly if it was found, and each of the three servers
/// is looked up under its own name.
pub proof fn a_server_is_asked_exactly_if_found(
    names: ActorNames,
    source: HealthSource,
    r: Option<AskHealth>,
)
    requires
        call_ensures(find_server, (&names, source), r),
    ensures
        source is Internal ==> asks_what_was_found(names.internal@, r),
        source is Internal2 ==> asks_what_was_found(names.internal2@, r),
        source is External ==> asks_what_was_found(names.external@, r),
{
}

/// What was found is what is asked: nobody else, and nobody where nothing was
/// found.
pub proof fn what_was_found_is_asked(found: Option<RegisteredActor>, r: Option<AskHealth>)
    requires
        call_ensures(ask_found, (found,), r),
    ensures
        r is Some <==> found is Some,
        r matches Some(ask) ==> found == Some(ask.server) && ask.timeout_ms == 10_000,
{
}

/// A report is handed on as it is; a failed question is no report.
pub proof fn reports_are_handed_on(reply: Result<ServerInfo, String>, r: Option<ServerInfo>)
    requires
        call_ensures(reported_health, (reply,), r),
    ensures
        r is Some <==> reply is Ok,
        r is Some ==> r->0 == reply->Ok_0,
{
}

/// Each model has its server, where the platform has the engine: the sidecar
/// always, the whisper engine where it is built in, the cactus engine on an
/// `aarch64`. A language model has none.
pub proof fn models_have_their_servers(
    model: LocalModel,
    platform: Platform,
    inside: Option<HealthSource>,
    any: Option<HealthSource>,
)
    requires
        call_ensures(internal_health_for_model, (&model, platform), inside),
        call_ensures(health_for_model, (&model, platform), any),
    ensures
        model is Am ==> inside is None && any == Some(HealthSource::External),
        model is Whisper && platform.whisper_cpp ==> inside == Some(HealthSource::Internal) && any
            == Some(HealthSource::Internal),
        model is Whisper && !platform.whisper_cpp ==> inside is None && any is None,
        model is Cactus && platform.aarch64 ==> inside == Some(HealthSource::Internal2) && any
            == Some(HealthSource::Internal2),
        model is Cactus && !platform.aarch64 ==> inside is None && any is None,
        model is GgufLlm || model is CactusLlm ==> inside is None && any is None,
{
}

} // verus!
