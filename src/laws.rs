use vstd::prelude::*;
use crate::error::SessionError;
use crate::network::network_of;
use crate::registry::lookup;
use crate::start::{
    first_phase,
    installed_after,
    is_finished,
    next_phase,
    start_result,
    StartConfig,
    StartEvent,
    StartPhase,
};

verus! {

/// The registry's content after concluding each startup of `phases` in turn,
/// beginning from `installed`.
pub open spec fn installed_after_all<H>(installed: Option<H>, phases: Seq<StartPhase<H>>) -> Option<H>
    decreases phases.len(),
{
    if phases.len() == 0 {
        installed
    } else {
        installed_after(installed_after_all(installed, phases.drop_last()), phases.last())
    }
}

/// A start request whose chain id names no supported network fails with
/// `UnsupportedChain` before any client is built, stays failed whatever
/// comes in afterwards, and leaves the registry exactly as it was.
pub proof fn unsupported_chain_leaves_registry<H, D>(
    cfg: StartConfig<D>,
    installed: Option<H>,
    event: StartEvent<H>,
)
    requires
        network_of(cfg.chain_id) is None,
    ensures
        first_phase::<H, D>(cfg) == StartPhase::<H>::Failed(
            SessionError::UnsupportedChain(cfg.chain_id),
        ),
        next_phase(first_phase::<H, D>(cfg), event) == first_phase::<H, D>(cfg),
        installed_after(installed, first_phase::<H, D>(cfg)) == installed,
        start_result(first_phase::<H, D>(cfg)) == Err::<(), SessionError>(
            SessionError::UnsupportedChain(cfg.chain_id),
        ),
{
}

/// As long as no startup has succeeded, a lookup in a registry that began
/// empty fails with `NotStarted`.
pub proof fn not_started_until_success<H>(phases: Seq<StartPhase<H>>)
    requires
        forall|i: int| 0 <= i < phases.len() ==> !(#[trigger] phases[i] is Ready),
    ensures
        installed_after_all(None, phases) == None::<H>,
        lookup(installed_after_all(None, phases)) == Err::<H, SessionError>(
            SessionError::NotStarted,
        ),
    decreases phases.len(),
{
    if phases.len() > 0 {
        let rest = phases.drop_last();
        assert forall|i: int| 0 <= i < rest.len() implies !(#[trigger] rest[i] is Ready) by {
            assert(rest[i] == phases[i]);
        }
        not_started_until_success(rest);
        assert(!(phases[phases.len() - 1] is Ready));
    }
}

/// A startup reaches `Ready` only from `Syncing` on the event that the
/// client is synchronized, and with that same client.
pub proof fn ready_only_once_synced<H>(phase: StartPhase<H>, event: StartEvent<H>)
    requires
        !(phase is Ready),
        next_phase(phase, event) is Ready,
    ensures
        event is Synced,
        phase == StartPhase::Syncing(next_phase(phase, event)->Ready_0),
{
}

/// After a successful startup a lookup yields the client that startup
/// synchronized, whatever the registry held before; the lookup itself asks
/// nothing more of the client.
pub proof fn lookup_after_success<H>(installed: Option<H>, client: H)
    ensures
        start_result(StartPhase::Ready(client)) == Ok::<(), SessionError>(()),
        lookup(installed_after(installed, StartPhase::Ready(client))) == Ok::<H, SessionError>(
            client,
        ),
{
}

/// Concluding a startup changes the registry in one step: afterwards it holds
/// either what it held before or the whole synchronized client, never
/// anything in between.
pub proof fn conclusion_is_atomic<H>(installed: Option<H>, phase: StartPhase<H>)
    requires
        is_finished(phase),
    ensures
        installed_after(installed, phase) == installed || (phase matches StartPhase::Ready(c)
            && installed_after(installed, phase) == Some(c)),
{
}

/// A second successful startup replaces the first: a lookup after it yields
/// the second client.
pub proof fn restart_replaces<H>(installed: Option<H>, first: H, second: H)
    ensures
        lookup(
            installed_after(
                installed_after(installed, StartPhase::Ready(first)),
                StartPhase::Ready(second),
            ),
        ) == Ok::<H, SessionError>(second),
{
}

} // verus!
