//! The resolver: a registry of nodes and the placement of provisioning
//! requests onto them.
//!
//! The registry only grows: a node is registered under its host name and
//! stays registered. A placement names the node it wants. The resolver
//! looks the node up, asks it for the resources it has on offer, compares
//! them with what is asked for and, where they suffice, forwards the
//! request to the node.
//!
//! The resolver makes no call itself. A [`Placement`] says which call is
//! due next and takes the answer as a [`PlacementEvent`]; the caller
//! performs the call.
//!
//! Nothing is reserved between the check and the forwarded request. Two
//! placements onto one node can both pass the check on the same report
//! and both be forwarded, so a node can be asked for more than it has.

use vstd::prelude::*;
use crate::error::{Entity, Error};
use crate::model::{DataCenter, Resources};
use crate::table::{Table, TableView};

verus! {

/// Whether what is asked for is within what is on offer, in each of
/// memory, disk and processors.
pub open spec fn sufficient(requested: Resources, available: Resources) -> bool {
    &&& requested.ram_mb <= available.ram_mb
    &&& requested.disk_mb <= available.disk_mb
    &&& requested.vcpus <= available.vcpus
}

/// Accepts a request that the offer covers and refuses any other with
/// `ResourceInsufficient`.
pub fn check_capacity(requested: &Resources, available: &Resources) -> (outcome: Result<
    (),
    Error,
>)
    ensures
        outcome is Ok <==> sufficient(*requested, *available),
        outcome is Err ==> outcome == Err::<(), _>(Error::ResourceInsufficient),
{
    if requested.ram_mb <= available.ram_mb && requested.disk_mb <= available.disk_mb
        && requested.vcpus <= available.vcpus {
        Ok(())
    } else {
        Err(Error::ResourceInsufficient)
    }
}

/// Placement monotonicity: a request that an offer covers is covered by
/// every offer that is at least as large, and every request that is at
/// most as large is covered by the same offer.
pub proof fn law_sufficient_monotonic(
    requested: Resources,
    available: Resources,
    smaller: Resources,
    larger: Resources,
)
    requires
        sufficient(requested, available),
        sufficient(smaller, requested),
        sufficient(available, larger),
    ensures
        sufficient(requested, larger),
        sufficient(smaller, available),
{
}

/// A request to provision a machine on the node `host_name`.
#[derive(Debug, PartialEq, Eq)]
pub struct ProvisionMachineRequest {
    pub ram_mb: u32,
    pub disk_mb: u32,
    pub vcpus: u32,
    pub host_name: String,
}

impl ProvisionMachineRequest {
    /// The resources that the request asks for.
    pub open spec fn resources(self) -> Resources {
        Resources { ram_mb: self.ram_mb, disk_mb: self.disk_mb, vcpus: self.vcpus }
    }
}

/// How far a placement has come.
#[derive(Clone, Copy, Debug, PartialEq, Eq, Structural)]
pub enum Stage {
    /// The node has been asked for its resources.
    Checking,
    /// The request has been forwarded to the node.
    Forwarding,
    /// The caller has its reply.
    Finished,
}

/// A placement in progress.
#[derive(Debug)]
pub struct Placement {
    host_name: String,
    requested: Resources,
    stage: Stage,
}

/// The mathematical content of a [`Placement`].
pub struct PlacementView {
    pub host_name: Seq<char>,
    pub requested: Resources,
    pub stage: Stage,
}

impl View for Placement {
    type V = PlacementView;

    closed spec fn view(&self) -> PlacementView {
        PlacementView {
            host_name: self.host_name@,
            requested: self.requested,
            stage: self.stage,
        }
    }
}

/// What a node answered, or that it did not.
#[derive(Debug, PartialEq, Eq)]
pub enum PlacementEvent {
    /// The node reported the resources it has on offer.
    ResourcesReported(Resources),
    /// The node provisioned the machine and reported its address.
    Provisioned(String),
    /// The call to the node failed or timed out.
    CallFailed,
}

/// The mathematical content of a [`PlacementEvent`].
pub enum PlacementEventView {
    ResourcesReported(Resources),
    Provisioned(Seq<char>),
    CallFailed,
}

impl View for PlacementEvent {
    type V = PlacementEventView;

    open spec fn view(&self) -> PlacementEventView {
        match self {
            PlacementEvent::ResourcesReported(r) => PlacementEventView::ResourcesReported(*r),
            PlacementEvent::Provisioned(address) => PlacementEventView::Provisioned(address@),
            PlacementEvent::CallFailed => PlacementEventView::CallFailed,
        }
    }
}

/// What the caller is to do next.
#[derive(Debug, PartialEq, Eq)]
pub enum PlacementAction {
    /// Ask the node for the resources it has on offer.
    CheckResource { host_name: String },
    /// Forward the request to the node.
    ProvisionMachine { host_name: String, resources: Resources },
    /// Answer the request: with the address of the machine, or with the
    /// reason why there is none.
    Reply(Result<String, Error>),
}

/// The mathematical content of a [`PlacementAction`].
pub enum PlacementActionView {
    CheckResource { host_name: Seq<char> },
    ProvisionMachine { host_name: Seq<char>, resources: Resources },
    Reply(Result<Seq<char>, Error>),
}

impl View for PlacementAction {
    type V = PlacementActionView;

    open spec fn view(&self) -> PlacementActionView {
        match self {
            PlacementAction::CheckResource { host_name } => PlacementActionView::CheckResource {
                host_name: host_name@,
            },
            PlacementAction::ProvisionMachine {
                host_name,
                resources,
            } => PlacementActionView::ProvisionMachine {
                host_name: host_name@,
                resources: *resources,
            },
            PlacementAction::Reply(Ok(address)) => PlacementActionView::Reply(Ok(address@)),
            PlacementAction::Reply(Err(e)) => PlacementActionView::Reply(Err(*e)),
        }
    }
}

/// The placement that is finished where `p` stands.
pub open spec fn finished(p: PlacementView) -> PlacementView {
    PlacementView { stage: Stage::Finished, ..p }
}

/// The first step of a placement of `requested` onto `host_name` with the
/// registry `registry`: the node is asked for its resources where it is
/// registered, and the request is refused with `NotFound` where it is not.
pub open spec fn placement_start(
    registry: Seq<Seq<char>>,
    host_name: Seq<char>,
    requested: Resources,
) -> (PlacementView, PlacementActionView) {
    if registry.contains(host_name) {
        (
            PlacementView { host_name, requested, stage: Stage::Checking },
            PlacementActionView::CheckResource { host_name },
        )
    } else {
        (
            PlacementView { host_name, requested, stage: Stage::Finished },
            PlacementActionView::Reply(Err(Error::NotFound(Entity::DataCenter))),
        )
    }
}

/// The step that placement `p` takes on `event`.
///
/// While checking, a report that covers the request has the request
/// forwarded, and any other report has it refused with
/// `ResourceInsufficient`. While forwarding, the address that the node
/// reports is the reply. A failed call ends the placement with
/// `UpstreamUnavailable`. An event that the stage does not wait for ends
/// it with `InvalidState`.
pub open spec fn placement_step(p: PlacementView, event: PlacementEventView) -> (
    PlacementView,
    PlacementActionView,
) {
    match (p.stage, event) {
        (Stage::Checking, PlacementEventView::ResourcesReported(available)) => if sufficient(
            p.requested,
            available,
        ) {
            (
                PlacementView { stage: Stage::Forwarding, ..p },
                PlacementActionView::ProvisionMachine {
                    host_name: p.host_name,
                    resources: p.requested,
                },
            )
        } else {
            (finished(p), PlacementActionView::Reply(Err(Error::ResourceInsufficient)))
        },
        (Stage::Forwarding, PlacementEventView::Provisioned(address)) => (
            finished(p),
            PlacementActionView::Reply(Ok(address)),
        ),
        (Stage::Checking, PlacementEventView::CallFailed) => (
            finished(p),
            PlacementActionView::Reply(Err(Error::UpstreamUnavailable)),
        ),
        (Stage::Forwarding, PlacementEventView::CallFailed) => (
            finished(p),
            PlacementActionView::Reply(Err(Error::UpstreamUnavailable)),
        ),
        _ => (finished(p), PlacementActionView::Reply(Err(Error::InvalidState))),
    }
}

/// Placement: a request passes the check exactly when the node's report
/// covers it in every dimension. It is then forwarded to the node
/// unchanged; otherwise it is refused with `ResourceInsufficient`.
pub proof fn law_placement_check(p: PlacementView, available: Resources)
    requires
        p.stage == Stage::Checking,
    ensures
        sufficient(p.requested, available) ==> placement_step(
            p,
            PlacementEventView::ResourcesReported(available),
        ).1 == (PlacementActionView::ProvisionMachine {
            host_name: p.host_name,
            resources: p.requested,
        }),
        !sufficient(p.requested, available) ==> placement_step(
            p,
            PlacementEventView::ResourcesReported(available),
        ) == (finished(p), PlacementActionView::Reply(Err(Error::ResourceInsufficient))),
        (p.requested.ram_mb > available.ram_mb || p.requested.disk_mb > available.disk_mb
            || p.requested.vcpus > available.vcpus) ==> !sufficient(p.requested, available),
{
}

impl Placement {
    /// Takes the answer of the node and says what is due next.
    pub fn step(self, event: PlacementEvent) -> (next: (Placement, PlacementAction))
        ensures
            (next.0@, next.1@) == placement_step(self@, event@),
    {
        let Placement { host_name, requested, stage } = self;
        match (stage, event) {
            (Stage::Checking, PlacementEvent::ResourcesReported(available)) => {
                if check_capacity(&requested, &available).is_ok() {
                    let target = host_name.clone();
                    (
                        Placement { host_name, requested, stage: Stage::Forwarding },
                        PlacementAction::ProvisionMachine {
                            host_name: target,
                            resources: requested,
                        },
                    )
                } else {
                    (
                        Placement { host_name, requested, stage: Stage::Finished },
                        PlacementAction::Reply(Err(Error::ResourceInsufficient)),
                    )
                }
            },
            (Stage::Forwarding, PlacementEvent::Provisioned(address)) => (
                Placement { host_name, requested, stage: Stage::Finished },
                PlacementAction::Reply(Ok(address)),
            ),
            (Stage::Checking, PlacementEvent::CallFailed) => (
                Placement { host_name, requested, stage: Stage::Finished },
                PlacementAction::Reply(Err(Error::UpstreamUnavailable)),
            ),
            (Stage::Forwarding, PlacementEvent::CallFailed) => (
                Placement { host_name, requested, stage: Stage::Finished },
                PlacementAction::Reply(Err(Error::UpstreamUnavailable)),
            ),
            _ => (
                Placement { host_name, requested, stage: Stage::Finished },
                PlacementAction::Reply(Err(Error::InvalidState)),
            ),
        }
    }

    /// Whether the caller has its reply.
    pub fn is_finished(&self) -> (done: bool)
        ensures
            done == (self@.stage == Stage::Finished),
    {
        match self.stage {
            Stage::Finished => true,
            _ => false,
        }
    }
}

/// The registration of `host_name` in `registry`: the name is put at the
/// end where it is new, and nothing changes where it is not.
pub open spec fn register(registry: Seq<Seq<char>>, host_name: Seq<char>) -> Seq<Seq<char>> {
    if registry.contains(host_name) {
        registry
    } else {
        registry.push(host_name)
    }
}

/// The resolver: the nodes that have been registered, by host name.
pub struct LocalDcnsResolver {
    data_centers: Table<DataCenter>,
}

impl View for LocalDcnsResolver {
    type V = Seq<Seq<char>>;

    /// The host names in the order in which they were registered.
    closed spec fn view(&self) -> Seq<Seq<char>> {
        self.data_centers@.order
    }
}

impl Default for LocalDcnsResolver {
    /// A resolver that knows no node.
    fn default() -> (resolver: LocalDcnsResolver)
        ensures
            resolver@ == Seq::<Seq<char>>::empty(),
    {
        LocalDcnsResolver::new()
    }
}

impl LocalDcnsResolver {
    #[verifier::type_invariant]
    spec fn stored_under_host_name(self) -> bool {
        &&& self.data_centers@.wf()
        &&& forall|h: Seq<char>| #[trigger]
            self.data_centers@.contains(h) ==> self.data_centers@.map[h] == h
    }

    /// A resolver that knows no node.
    pub fn new() -> (resolver: LocalDcnsResolver)
        ensures
            resolver@ == Seq::<Seq<char>>::empty(),
    {
        LocalDcnsResolver { data_centers: Table::new() }
    }

    /// Registers the node `host_name`. A name that is registered already
    /// is not registered again.
    pub fn register_data_center(&mut self, host_name: String) -> (data_center: DataCenter)
        ensures
            data_center@ == host_name@,
            final(self)@ == register(old(self)@, host_name@),
            final(self)@.no_duplicates(),
    {
        proof {
            use_type_invariant(&*self);
        }
        let data_center = DataCenter { host_name: host_name.clone() };
        if !self.data_centers.contains_key(&host_name) {
            let mut taken = LocalDcnsResolver::new();
            core::mem::swap(self, &mut taken);
            let LocalDcnsResolver { data_centers: mut table } = taken;
            table.insert(host_name, data_center.clone());
            *self = LocalDcnsResolver { data_centers: table };
        }
        data_center
    }

    /// The node that is registered under `host_name`, if there is one.
    pub fn resolve(&self, host_name: &String) -> (found: Option<DataCenter>)
        ensures
            match found {
                Some(data_center) => self@.contains(host_name@) && data_center@ == host_name@,
                None => !self@.contains(host_name@),
            },
    {
        proof {
            use_type_invariant(self);
        }
        match self.data_centers.get(host_name) {
            Some(data_center) => Some(data_center.clone()),
            None => None,
        }
    }

    /// All registered nodes, in the order in which they were registered.
    pub fn list_data_centers(&self) -> (data_centers: Vec<DataCenter>)
        ensures
            data_centers.deep_view() == self@,
            self@.no_duplicates(),
    {
        proof {
            use_type_invariant(self);
        }
        let count = self.data_centers.len();
        let mut data_centers: Vec<DataCenter> = Vec::new();
        let mut i: usize = 0;
        while i < count
            invariant
                i <= count,
                count == self@.len(),
                self.stored_under_host_name(),
                data_centers.len() == i,
                forall|j: int| 0 <= j < i ==> (#[trigger] data_centers[j])@ == self@[j],
            decreases count - i,
        {
            proof {
                assert(self.data_centers@.order.contains(self.data_centers@.order[i as int]));
            }
            data_centers.push(self.data_centers.value_at(i).clone());
            i = i + 1;
        }
        assert(data_centers.deep_view() =~= self@);
        data_centers
    }

    /// Begins the placement of `request`: says whether the node it names
    /// is registered and, where it is, that the node is to be asked for
    /// its resources.
    pub fn provision_machine(&self, request: ProvisionMachineRequest) -> (begun: (
        Placement,
        PlacementAction,
    ))
        ensures
            (begun.0@, begun.1@) == placement_start(
                self@,
                request.host_name@,
                request.resources(),
            ),
    {
        proof {
            use_type_invariant(self);
        }
        let requested = Resources {
            ram_mb: request.ram_mb,
            disk_mb: request.disk_mb,
            vcpus: request.vcpus,
        };
        let registered = self.data_centers.contains_key(&request.host_name);
        let host_name = request.host_name;
        if registered {
            let target = host_name.clone();
            (
                Placement { host_name, requested, stage: Stage::Checking },
                PlacementAction::CheckResource { host_name: target },
            )
        } else {
            (
                Placement { host_name, requested, stage: Stage::Finished },
                PlacementAction::Reply(Err(Error::NotFound(Entity::DataCenter))),
            )
        }
    }
}

} // verus!
