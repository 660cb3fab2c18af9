use vstd::prelude::*;
use crate::error::SessionError;
use crate::network::{get_network, network_of, Network};
use crate::registry::HeliosState;

verus! {

/// The consensus endpoint used when the caller names none.
pub const DEFAULT_CONSENSUS_RPC: &'static str = "https://www.lightclientdata.org";

/// What a caller asks for when starting a light client. `data_dir` is the
/// directory for the client's persistent state, as the host resolved it
/// (`None` when it could not).
pub struct StartConfig<D> {
    pub rpc_url: String,
    pub consensus_rpc: Option<String>,
    pub chain_id: u64,
    pub data_dir: Option<D>,
}

/// Everything the client is to be built from.
pub struct BuildRequest<D> {
    pub network: Network,
    pub execution_rpc: String,
    pub consensus_rpc: String,
    pub data_dir: D,
}

/// Where the startup of a client `H` stands, and so what is to be done next:
/// build the client (`Building`), start it (`Starting`), wait until it is
/// synchronized (`Syncing`), install it (`Ready`), or report the failure
/// (`Failed`).
pub enum StartPhase<H> {
    Building,
    Starting(H),
    Syncing(H),
    Ready(H),
    Failed(SessionError),
}

/// The outcome of the work that a phase asked for.
pub enum StartEvent<H> {
    Built(Result<H, String>),
    Started(Result<(), String>),
    Synced,
}

/// The consensus endpoint that a start request resolves to.
pub open spec fn consensus_or_default(consensus_rpc: Option<String>) -> Seq<char> {
    match consensus_rpc {
        Some(url) => url@,
        None => DEFAULT_CONSENSUS_RPC@,
    }
}

/// Why a start request is refused before any client is built, if it is.
/// The chain id is judged first.
pub open spec fn start_refusal<D>(cfg: StartConfig<D>) -> Option<SessionError> {
    if network_of(cfg.chain_id) is None {
        Some(SessionError::UnsupportedChain(cfg.chain_id))
    } else if cfg.data_dir is None {
        Some(SessionError::DataDirUnresolvable)
    } else {
        None
    }
}

/// The phase a start request begins in.
pub open spec fn first_phase<H, D>(cfg: StartConfig<D>) -> StartPhase<H> {
    match start_refusal(cfg) {
        Some(e) => StartPhase::Failed(e),
        None => StartPhase::Building,
    }
}

/// The phase that follows `phase` once `event` has come in. An event that
/// does not answer the phase's work leaves the phase as it is.
pub open spec fn next_phase<H>(phase: StartPhase<H>, event: StartEvent<H>) -> StartPhase<H> {
    match (phase, event) {
        (StartPhase::Building, StartEvent::Built(Ok(client))) => StartPhase::Starting(client),
        (StartPhase::Building, StartEvent::Built(Err(cause))) => StartPhase::Failed(
            SessionError::BuildFailed(cause),
        ),
        (StartPhase::Starting(client), StartEvent::Started(Ok(_))) => StartPhase::Syncing(client),
        (StartPhase::Starting(_), StartEvent::Started(Err(cause))) => StartPhase::Failed(
            SessionError::StartFailed(cause),
        ),
        (StartPhase::Syncing(client), StartEvent::Synced) => StartPhase::Ready(client),
        (p, _) => p,
    }
}

/// A phase from which no more work is asked.
pub open spec fn is_finished<H>(phase: StartPhase<H>) -> bool {
    phase is Ready || phase is Failed
}

/// The registry's content once a finished startup has been concluded: the
/// synchronized client if there is one, else what was there before.
pub open spec fn installed_after<H>(installed: Option<H>, phase: StartPhase<H>) -> Option<H> {
    match phase {
        StartPhase::Ready(client) => Some(client),
        _ => installed,
    }
}

/// What the caller of a start is told once it has been concluded.
pub open spec fn start_result<H>(phase: StartPhase<H>) -> Result<(), SessionError> {
    match phase {
        StartPhase::Failed(e) => Err(e),
        _ => Ok(()),
    }
}

impl<H> StartPhase<H> {
    /// Whether no more work is asked of the caller.
    pub fn is_finished(&self) -> (r: bool)
        ensures
            r == is_finished(*self),
    {
        match self {
            StartPhase::Ready(_) | StartPhase::Failed(_) => true,
            _ => false,
        }
    }
}

/// Judges a start request. When it is refused the phase is `Failed` and no
/// client is to be built; otherwise the phase is `Building` and the request
/// says what to build the client from.
pub fn begin_start<H, D>(cfg: StartConfig<D>) -> (r: (StartPhase<H>, Option<BuildRequest<D>>))
    ensures
        r.0 == first_phase::<H, D>(cfg),
        match start_refusal(cfg) {
            Some(_) => r.1 is None,
            None => r.1 matches Some(req) && {
                &&& Some(req.network) == network_of(cfg.chain_id)
                &&& Some(req.data_dir) == cfg.data_dir
                &&& req.execution_rpc@ == cfg.rpc_url@
                &&& req.consensus_rpc@ == consensus_or_default(cfg.consensus_rpc)
            },
        },
{
    let network = match get_network(cfg.chain_id) {
        Ok(n) => n,
        Err(e) => {
            return (StartPhase::Failed(e), None);
        },
    };
    let data_dir = match cfg.data_dir {
        Some(d) => d,
        None => {
            return (StartPhase::Failed(SessionError::DataDirUnresolvable), None);
        },
    };
    let consensus_rpc = match cfg.consensus_rpc {
        Some(url) => url,
        None => String::from_str(DEFAULT_CONSENSUS_RPC),
    };
    let req = BuildRequest { network, execution_rpc: cfg.rpc_url, consensus_rpc, data_dir };
    (StartPhase::Building, Some(req))
}

/// Moves a startup on by one event.
pub fn advance<H>(phase: StartPhase<H>, event: StartEvent<H>) -> (r: StartPhase<H>)
    ensures
        r == next_phase(phase, event),
{
    match (phase, event) {
        (StartPhase::Building, StartEvent::Built(Ok(client))) => StartPhase::Starting(client),
        (StartPhase::Building, StartEvent::Built(Err(cause))) => StartPhase::Failed(
            SessionError::BuildFailed(cause),
        ),
        (StartPhase::Starting(client), StartEvent::Started(Ok(_))) => StartPhase::Syncing(client),
        (StartPhase::Starting(_), StartEvent::Started(Err(cause))) => StartPhase::Failed(
            SessionError::StartFailed(cause),
        ),
        (StartPhase::Syncing(client), StartEvent::Synced) => StartPhase::Ready(client),
        (p, _) => p,
    }
}

/// Concludes a finished startup: a synchronized client replaces whatever the
/// registry held; a failure leaves the registry untouched and is returned.
pub fn finish_start<H>(state: &mut HeliosState<H>, phase: StartPhase<H>) -> (r: Result<
    (),
    SessionError,
>)
    requires
        is_finished(phase),
    ensures
        final(state)@ == installed_after(old(state)@, phase),
        r == start_result(phase),
{
    match phase {
        StartPhase::Ready(client) => {
            let _retired = state.install(client);
            Ok(())
        },
        StartPhase::Failed(e) => Err(e),
        _ => Ok(()),
    }
}

} // verus!
