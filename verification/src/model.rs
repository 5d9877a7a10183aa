//! Models, the servers that run them, and what the platform supports.

use vstd::prelude::*;

use crate::error::Error;

verus! {

/// A model that can be kept on this machine, with its identifier.
#[derive(Debug, Eq)]
pub enum LocalModel {
    /// Speech to text, served by the external sidecar process.
    Am(String),
    /// Speech to text, served by the whisper engine inside this process.
    Whisper(String),
    /// Speech to text, served by the cactus engine inside this process.
    Cactus(String),
    /// A language model.
    GgufLlm(String),
    /// A language model for the cactus engine.
    CactusLlm(String),
}

/// The value of a [`LocalModel`].
pub enum ModelView {
    Am(Seq<char>),
    Whisper(Seq<char>),
    Cactus(Seq<char>),
    GgufLlm(Seq<char>),
    CactusLlm(Seq<char>),
}

impl DeepView for LocalModel {
    type V = ModelView;

    open spec fn deep_view(&self) -> ModelView {
        match self {
            LocalModel::Am(id) => ModelView::Am(id@),
            LocalModel::Whisper(id) => ModelView::Whisper(id@),
            LocalModel::Cactus(id) => ModelView::Cactus(id@),
            LocalModel::GgufLlm(id) => ModelView::GgufLlm(id@),
            LocalModel::CactusLlm(id) => ModelView::CactusLlm(id@),
        }
    }
}

impl PartialEq for LocalModel {
    fn eq(&self, other: &Self) -> (r: bool) {
        match (self, other) {
            (LocalModel::Am(a), LocalModel::Am(b)) => a.eq(b),
            (LocalModel::Whisper(a), LocalModel::Whisper(b)) => a.eq(b),
            (LocalModel::Cactus(a), LocalModel::Cactus(b)) => a.eq(b),
            (LocalModel::GgufLlm(a), LocalModel::GgufLlm(b)) => a.eq(b),
            (LocalModel::CactusLlm(a), LocalModel::CactusLlm(b)) => a.eq(b),
            _ => false,
        }
    }
}

impl vstd::std_specs::cmp::PartialEqSpecImpl for LocalModel {
    open spec fn obeys_eq_spec() -> bool {
        true
    }

    open spec fn eq_spec(&self, other: &Self) -> bool {
        self.deep_view() == other.deep_view()
    }
}

impl Clone for LocalModel {
    fn clone(&self) -> (r: Self)
        ensures
            r == *self,
    {
        match self {
            LocalModel::Am(id) => LocalModel::Am(id.clone()),
            LocalModel::Whisper(id) => LocalModel::Whisper(id.clone()),
            LocalModel::Cactus(id) => LocalModel::Cactus(id.clone()),
            LocalModel::GgufLlm(id) => LocalModel::GgufLlm(id.clone()),
            LocalModel::CactusLlm(id) => LocalModel::CactusLlm(id.clone()),
        }
    }
}

/// Whether a model turns speech into text.
pub open spec fn is_stt(model: ModelView) -> bool {
    model is Am || model is Whisper || model is Cactus
}

/// The kind of process that serves a model.
#[derive(Debug, Clone, Copy, PartialEq, Eq, Hash, Structural)]
pub enum ServerType {
    /// Inside this process.
    Internal,
    /// In a process of its own.
    External,
}

/// The kind of server of a speech-to-text model; `None` for other models.
pub open spec fn server_type_of(model: ModelView) -> Option<ServerType> {
    match model {
        ModelView::Am(_) => Some(ServerType::External),
        ModelView::Whisper(_) | ModelView::Cactus(_) => Some(ServerType::Internal),
        ModelView::GgufLlm(_) | ModelView::CactusLlm(_) => None,
    }
}

/// The state that a server reports.
#[derive(Debug, Clone, Copy, PartialEq, Eq, Structural)]
pub enum ServerStatus {
    /// No server answers.
    Unreachable,
    /// The server is loading its model.
    Loading,
    /// The server takes requests.
    Ready,
}

/// What a server reports of itself.
#[derive(Debug, PartialEq, Eq)]
pub struct ServerInfo {
    pub url: Option<String>,
    pub status: ServerStatus,
    pub model: Option<LocalModel>,
}

/// The value of a [`ServerInfo`].
pub struct ServerInfoView {
    pub url: Option<Seq<char>>,
    pub status: ServerStatus,
    pub model: Option<ModelView>,
}

impl DeepView for ServerInfo {
    type V = ServerInfoView;

    open spec fn deep_view(&self) -> ServerInfoView {
        ServerInfoView {
            url: self.url.deep_view(),
            status: self.status,
            model: self.model.deep_view(),
        }
    }
}

/// What is said of a server that does not answer.
pub open spec fn unreachable_info() -> ServerInfoView {
    ServerInfoView { url: None, status: ServerStatus::Unreachable, model: None }
}

impl ServerInfo {
    /// What is said of a server that does not answer.
    pub fn unreachable() -> (r: ServerInfo)
        ensures
            r.deep_view() == unreachable_info(),
            r.url is None && r.status is Unreachable && r.model is None,
    {
        ServerInfo { url: None, status: ServerStatus::Unreachable, model: None }
    }

    /// Whether the server runs `model`.
    pub fn serves(&self, model: &LocalModel) -> (r: bool)
        ensures
            r == (self.deep_view().model == Some(model.deep_view())),
    {
        match &self.model {
            Some(m) => m.eq(model),
            None => false,
        }
    }
}

/// What this build and this machine can do.
#[derive(Debug, Clone, Copy, PartialEq, Eq, Structural)]
pub struct Platform {
    /// The whisper engine is built in.
    pub whisper_cpp: bool,
    /// The processor is an `aarch64`, for which the cactus engine is built.
    pub aarch64: bool,
    /// Debug assertions are on.
    pub debug_assertions: bool,
}

/// What is told to the user interface while a model is downloaded.
#[derive(Debug, PartialEq, Eq)]
pub struct DownloadProgressPayload<S> {
    pub model: LocalModel,
    pub status: S,
}

impl<S> DownloadProgressPayload<S> {
    /// Pairs a model with the state of its download.
    pub fn new(model: &LocalModel, status: S) -> (r: Self)
        ensures
            r.model.deep_view() == model.deep_view(),
            r.model == *model,
            r.status == status,
    {
        DownloadProgressPayload { model: model.clone(), status }
    }
}

/// Accepts the models that turn speech into text and refuses the others.
pub fn ensure_stt_model(model: &LocalModel) -> (r: Result<(), Error>)
    ensures
        r is Ok <==> is_stt(model.deep_view()),
        r is Err ==> r->Err_0 is UnsupportedModelType,
{
    match model {
        LocalModel::Am(_) | LocalModel::Whisper(_) | LocalModel::Cactus(_) => Ok(()),
        LocalModel::GgufLlm(_) | LocalModel::CactusLlm(_) => Err(Error::UnsupportedModelType),
    }
}

/// The kind of server that runs `model`; models that are not
/// speech-to-text models are refused.
pub fn server_type(model: &LocalModel) -> (r: Result<ServerType, Error>)
    ensures
        match server_type_of(model.deep_view()) {
            Some(t) => r == Ok::<ServerType, Error>(t),
            None => r == Err::<ServerType, Error>(Error::UnsupportedModelType),
        },
{
    match model {
        LocalModel::Am(_) => Ok(ServerType::External),
        LocalModel::Whisper(_) | LocalModel::Cactus(_) => Ok(ServerType::Internal),
        LocalModel::GgufLlm(_) | LocalModel::CactusLlm(_) => Err(Error::UnsupportedModelType),
    }
}

/// A model has a server exactly if it turns speech into text.
pub proof fn stt_models_have_servers(model: ModelView)
    ensures
        is_stt(model) <==> server_type_of(model) is Some,
{
}

/// Two models have the same value exactly if they are of one kind and have
/// the same identifier.
pub proof fn models_are_told_apart(a: LocalModel, b: LocalModel)
    ensures
        a.deep_view() == b.deep_view() <==> match (a, b) {
            (LocalModel::Am(x), LocalModel::Am(y)) => x@ == y@,
            (LocalModel::Whisper(x), LocalModel::Whisper(y)) => x@ == y@,
            (LocalModel::Cactus(x), LocalModel::Cactus(y)) => x@ == y@,
            (LocalModel::GgufLlm(x), LocalModel::GgufLlm(y)) => x@ == y@,
            (LocalModel::CactusLlm(x), LocalModel::CactusLlm(y)) => x@ == y@,
            _ => false,
        },
{
}

/// Two reports have the same value exactly if they name the same address and
/// the same model and are in the same state.
pub proof fn reports_are_told_apart(a: ServerInfo, b: ServerInfo)
    ensures
        a.deep_view() == b.deep_view() <==> {
            &&& a.url.deep_view() == b.url.deep_view()
            &&& a.status == b.status
            &&& a.model.deep_view() == b.model.deep_view()
        },
{
}

/// A server runs a model exactly if it reports that model: one of the same
/// kind with the same identifier.
pub proof fn servers_run_what_they_report(info: ServerInfo, model: LocalModel, r: bool)
    requires
        call_ensures(ServerInfo::serves, (&info, &model), r),
    ensures
        r <==> info.model is Some && match (info.model->0, model) {
            (LocalModel::Am(x), LocalModel::Am(y)) => x@ == y@,
            (LocalModel::Whisper(x), LocalModel::Whisper(y)) => x@ == y@,
            (LocalModel::Cactus(x), LocalModel::Cactus(y)) => x@ == y@,
            (LocalModel::GgufLlm(x), LocalModel::GgufLlm(y)) => x@ == y@,
            (LocalModel::CactusLlm(x), LocalModel::CactusLlm(y)) => x@ == y@,
            _ => false,
        },
{
}

/// Every model of the sidecar, of the whisper engine and of the cactus engine
/// is accepted; the sidecar runs outside this process, the engines inside.
/// Every language model is refused.
pub proof fn speech_models_are_accepted(
    model: LocalModel,
    accepted: Result<(), Error>,
    server: Result<ServerType, Error>,
)
    requires
        call_ensures(ensure_stt_model, (&model,), accepted),
        call_ensures(server_type, (&model,), server),
    ensures
        model is Am ==> accepted is Ok && server == Ok::<ServerType, Error>(ServerType::External),
        model is Whisper || model is Cactus ==> accepted is Ok && server == Ok::<
            ServerType,
            Error,
        >(ServerType::Internal),
        model is GgufLlm || model is CactusLlm ==> accepted == Err::<(), Error>(
            Error::UnsupportedModelType,
        ) && server == Err::<ServerType, Error>(Error::UnsupportedModelType),
{
}

/// What is told of a download is about the model that is downloaded, and is
/// the state that was given.
pub proof fn progress_is_told_of_the_model<S>(
    model: LocalModel,
    status: S,
    r: DownloadProgressPayload<S>,
)
    requires
        call_ensures(DownloadProgressPayload::<S>::new, (&model, status), r),
    ensures
        r.model == model,
        r.status == status,
{
}

/// Of a server that does not answer nothing is known: no address, no model.
pub proof fn unreachable_servers_report_nothing(r: ServerInfo)
    requires
        call_ensures(ServerInfo::unreachable, (), r),
    ensures
        r.url is None,
        r.status is Unreachable,
        r.model is None,
{
}

} // verus!
