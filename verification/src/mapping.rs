//! A port mapping held on the gateway, the steps of removing it, and the
//! choice between the two gateway protocols.
use vstd::prelude::*;
use vstd::string::*;

use crate::portmap::{IpProto, MapError, spec_map_error_message};

verus! {

/// A port mapping made on the gateway. `P` is the NAT-PMP/PCP mapping handle
/// and `G` the IGD gateway handle; a removed mapping is a `Pcp` without
/// handle, or an `Igd` whose external port is 0.
pub enum MappedPort<P, G> {
    Pcp(Option<P>),
    Igd { gateway: G, protocol: IpProto, external_port: u16 },
}

/// Whether the mapping has been removed.
pub open spec fn spec_is_dropped<P, G>(m: MappedPort<P, G>) -> bool {
    match m {
        MappedPort::Pcp(slot) => slot is None,
        MappedPort::Igd { external_port, .. } => external_port == 0,
    }
}

/// What removing a mapping asks of the gateway.
pub enum DropStep<P> {
    /// The mapping is already removed: nothing to do.
    Done,
    /// Ask NAT-PMP/PCP to remove this mapping; on failure it comes back.
    RemovePcp(P),
    /// Ask the IGD gateway to remove the mapping of this protocol and port.
    RemoveIgd { protocol: IpProto, external_port: u16 },
}

/// The first step of removing a mapping: the state it leaves and what it asks.
pub open spec fn spec_begin_drop<P, G>(m: MappedPort<P, G>) -> (MappedPort<P, G>, DropStep<P>) {
    match m {
        MappedPort::Pcp(None) => (m, DropStep::Done),
        MappedPort::Pcp(Some(p)) => (MappedPort::Pcp(None), DropStep::RemovePcp(p)),
        MappedPort::Igd { gateway, protocol, external_port } => {
            if external_port == 0 {
                (m, DropStep::Done)
            } else {
                (m, DropStep::RemoveIgd { protocol, external_port })
            }
        },
    }
}

/// The state after the gateway answered a removal. A failed NAT-PMP/PCP
/// removal hands the mapping back into the slot; a successful IGD removal
/// clears the external port. The other answers change nothing.
pub open spec fn spec_finish_drop<P, G>(m: MappedPort<P, G>, answer: DropAnswer<P>) -> MappedPort<P, G> {
    match (m, answer) {
        (MappedPort::Pcp(_), DropAnswer::PcpFailed(p)) => MappedPort::Pcp(Some(p)),
        (MappedPort::Igd { gateway, protocol, .. }, DropAnswer::IgdRemoved) => MappedPort::Igd {
            gateway,
            protocol,
            external_port: 0,
        },
        _ => m,
    }
}

/// How the gateway answered a removal.
pub enum DropAnswer<P> {
    /// NAT-PMP/PCP removed the mapping.
    PcpRemoved,
    /// NAT-PMP/PCP failed and handed the mapping back.
    PcpFailed(P),
    /// The IGD gateway removed the mapping.
    IgdRemoved,
    /// The IGD gateway failed.
    IgdFailed,
}

impl<P, G> MappedPort<P, G> {
    /// Whether the mapping has been removed.
    pub fn is_dropped(&self) -> (b: bool)
        ensures
            b == spec_is_dropped(*self),
    {
        match self {
            MappedPort::Pcp(pm) => pm.is_none(),
            MappedPort::Igd { external_port, .. } => *external_port == 0,
        }
    }

    /// Starts removing the mapping: a NAT-PMP/PCP handle is taken out of its
    /// slot to be handed to the removal; an IGD mapping stays as it is until
    /// the gateway answered.
    pub fn begin_drop(&mut self) -> (step: DropStep<P>)
        ensures
            (*final(self), step) == spec_begin_drop(*old(self)),
    {
        match self {
            MappedPort::Pcp(slot) => match slot.take() {
                None => DropStep::Done,
                Some(p) => DropStep::RemovePcp(p),
            },
            MappedPort::Igd { protocol, external_port, .. } => {
                if *external_port == 0 {
                    DropStep::Done
                } else {
                    DropStep::RemoveIgd { protocol: *protocol, external_port: *external_port }
                }
            },
        }
    }

    /// Records the gateway's answer to a removal.
    pub fn finish_drop(&mut self, answer: DropAnswer<P>)
        ensures
            *final(self) == spec_finish_drop(*old(self), answer),
    {
        match answer {
            DropAnswer::PcpFailed(p) => {
                if let MappedPort::Pcp(slot) = self {
                    *slot = Some(p);
                }
            },
            DropAnswer::IgdRemoved => {
                if let MappedPort::Igd { external_port, .. } = self {
                    *external_port = 0;
                }
            },
            _ => {},
        }
    }
}

/// Whether an answer reports that the removal succeeded.
pub open spec fn spec_removed<P>(answer: DropAnswer<P>) -> bool {
    answer is PcpRemoved || answer is IgdRemoved
}

/// Whether an answer fits the step that asked for it.
pub open spec fn answers<P>(step: DropStep<P>, answer: DropAnswer<P>) -> bool {
    match step {
        DropStep::Done => false,
        DropStep::RemovePcp(p) => answer is PcpRemoved || answer == DropAnswer::PcpFailed(p),
        DropStep::RemoveIgd { .. } => answer is IgdRemoved || answer is IgdFailed,
    }
}

/// Removing a live mapping asks the gateway to remove that very mapping: an
/// IGD mapping asks for its own protocol and external port and stays as it
/// is until the gateway answers; a NAT-PMP/PCP mapping hands over its own
/// handle and leaves its slot empty.
pub proof fn lemma_drop_asks_for_own_mapping<P, G>(m: MappedPort<P, G>)
    ensures
        m matches MappedPort::Igd { protocol, external_port, .. } ==> (external_port != 0 ==> (
        spec_begin_drop(m).1 == DropStep::<P>::RemoveIgd { protocol, external_port }
            && spec_begin_drop(m).0 == m)),
        m matches MappedPort::Pcp(Some(p)) ==> (spec_begin_drop(m).1 == DropStep::RemovePcp(p)
            && spec_begin_drop(m).0 == MappedPort::<P, G>::Pcp(None)),
{
}

/// Once the IGD gateway removed a mapping, the mapping keeps its gateway and
/// protocol and its external port is 0; a NAT-PMP/PCP removal that failed
/// puts the handed-back handle into the slot.
pub proof fn lemma_finish_drop_records_answer<P, G>(m: MappedPort<P, G>, answer: DropAnswer<P>)
    ensures
        m matches MappedPort::Igd { gateway, protocol, .. } ==> (answer is IgdRemoved ==> spec_finish_drop(
            m,
            answer,
        ) == MappedPort::<P, G>::Igd { gateway, protocol, external_port: 0 }),
        m is Pcp ==> (answer matches DropAnswer::PcpFailed(p) ==> spec_finish_drop(m, answer)
            == MappedPort::<P, G>::Pcp(Some(p))),
        (answer is PcpRemoved || answer is IgdFailed) ==> spec_finish_drop(m, answer) == m,
{
}

/// Removing a mapping that is already removed asks nothing of the gateway
/// and changes nothing.
pub proof fn lemma_drop_dropped_is_noop<P, G>(m: MappedPort<P, G>)
    requires
        spec_is_dropped(m),
    ensures
        spec_begin_drop(m) == (m, DropStep::<P>::Done),
{
}

/// A mapping that is not removed asks the gateway for its removal.
pub proof fn lemma_drop_live_asks_gateway<P, G>(m: MappedPort<P, G>)
    requires
        !spec_is_dropped(m),
    ensures
        !(spec_begin_drop(m).1 is Done),
{
}

/// Once the gateway answered that the removal succeeded, the mapping is
/// removed.
pub proof fn lemma_drop_success_removes<P, G>(m: MappedPort<P, G>, answer: DropAnswer<P>)
    requires
        !spec_is_dropped(m),
        answers(spec_begin_drop(m).1, answer),
        spec_removed(answer),
    ensures
        spec_is_dropped(spec_finish_drop(spec_begin_drop(m).0, answer)),
{
}

/// Once the gateway answered that the removal failed, the mapping is as it
/// was before: still held, and removable again.
pub proof fn lemma_drop_failure_keeps_mapping<P, G>(m: MappedPort<P, G>, answer: DropAnswer<P>)
    requires
        !spec_is_dropped(m),
        answers(spec_begin_drop(m).1, answer),
        !spec_removed(answer),
    ensures
        spec_finish_drop(spec_begin_drop(m).0, answer) == m,
{
}

/// The outcome of one way of mapping a port: the mapping, or why it failed.
pub enum Attempt<T> {
    Mapped(T),
    Failed(MapError),
}

/// Both ways of mapping a port failed; the errors in the order they came.
#[derive(Clone, Debug, PartialEq, Eq)]
pub struct MappedPortAutoError(pub MapError, pub MapError);

/// The message of a failure of both ways of mapping.
pub open spec fn spec_auto_error_message(e1: Seq<char>, e2: Seq<char>) -> Seq<char> {
    "failed to map port on gateway with either NAT-PMP/PCP or UPnP IGD;\n* 1) "@ + e1 + ";\n* 2) "@
        + e2 + ";\n"@
}

impl MappedPortAutoError {
    /// The message of the error, with both errors' messages.
    pub fn message(&self) -> (m: String)
        ensures
            m@ == spec_auto_error_message(
                spec_map_error_message(self.0),
                spec_map_error_message(self.1),
            ),
    {
        let mut m = String::from_str(
            "failed to map port on gateway with either NAT-PMP/PCP or UPnP IGD;\n* 1) ",
        );
        let e1 = self.0.message();
        m.append(e1.as_str());
        m.append(";\n* 2) ");
        let e2 = self.1.message();
        m.append(e2.as_str());
        m.append(";\n");
        m
    }
}

/// What mapping a port by trying two ways comes to: the first way that
/// mapped, tried in order, or both errors.
pub open spec fn spec_auto_map<T>(first: Attempt<T>, second: Attempt<T>) -> Result<
    T,
    MappedPortAutoError,
> {
    match first {
        Attempt::Mapped(v) => Ok(v),
        Attempt::Failed(e1) => match second {
            Attempt::Mapped(v) => Ok(v),
            Attempt::Failed(e2) => Err(MappedPortAutoError(e1, e2)),
        },
    }
}

/// Settles the first way tried: its mapping is the result, its error is kept
/// for the case that the other way fails too.
pub fn settle_first<T>(first: Attempt<T>) -> (r: Result<T, MapError>)
    ensures
        first matches Attempt::Mapped(v) ==> r == Ok::<T, MapError>(v),
        first matches Attempt::Failed(e) ==> r == Err::<T, MapError>(e),
{
    match first {
        Attempt::Mapped(v) => Ok(v),
        Attempt::Failed(e) => Err(e),
    }
}

/// Settles the second way tried, after the first failed with `e1`.
pub fn settle_second<T>(e1: MapError, second: Attempt<T>) -> (r: Result<T, MappedPortAutoError>)
    ensures
        r == spec_auto_map(Attempt::Failed(e1), second),
{
    match second {
        Attempt::Mapped(v) => Ok(v),
        Attempt::Failed(e2) => Err(MappedPortAutoError(e1, e2)),
    }
}

/// Trying the second way only when the first failed, and settling both,
/// comes to `spec_auto_map`: the mapping is had whenever either way mapped,
/// the first way wins, and a failure reports the first error then the second.
pub proof fn lemma_auto_map<T>(first: Attempt<T>, second: Attempt<T>)
    ensures
        spec_auto_map(first, second) is Ok <==> (first is Mapped || second is Mapped),
        first matches Attempt::Mapped(v) ==> spec_auto_map(first, second) == Ok::<
            T,
            MappedPortAutoError,
        >(v),
        first is Failed ==> (second matches Attempt::Mapped(v) ==> spec_auto_map(first, second)
            == Ok::<T, MappedPortAutoError>(v)),
        first matches Attempt::Failed(e1) ==> (second matches Attempt::Failed(e2) ==> spec_auto_map(
            first,
            second,
        ) == Err::<T, MappedPortAutoError>(MappedPortAutoError(e1, e2))),
{
}

} // verus!
