//! The state of a data center node as a mathematical value.
//!
//! A node keeps five tables: the metadata of files by path, images,
//! machines and instances by identifier, and the process that runs each
//! started instance. [`NodeView`] is the content of the five tables. Its
//! methods say what each request does to it, and [`NodeView::valid`] what
//! holds of it at all times.
//!
//! [`apply`] is the node as a state machine: the state after a request.
//! The laws at the end of the file hold of every run of that machine:
//! the state stays valid, no identifier is assigned twice, and an
//! instance has a process exactly while it is started.

use vstd::prelude::*;
use crate::ident::{fresh_from, lemma_fresh_from};
use crate::model::{
    instance_address, FileMetadataView, InstanceState, InstanceView, MachineView,
    OsImageMetadataView, ProcessId, Resources,
};
use crate::table::TableView;

verus! {

/// The record of a newly declared file.
pub open spec fn file_record(path: Seq<char>, size: nat) -> FileMetadataView {
    FileMetadataView { file_path: path, file_size: size, version: 0 }
}

/// The mathematical content of a node: its five tables.
pub struct NodeView {
    pub files: TableView<FileMetadataView>,
    pub images: TableView<OsImageMetadataView>,
    pub machines: TableView<MachineView>,
    pub instances: TableView<InstanceView>,
    /// The process of every instance that has one.
    pub processes: TableView<ProcessId>,
}

impl NodeView {
    /// The node that holds nothing.
    pub open spec fn empty() -> NodeView {
        NodeView {
            files: TableView::empty(),
            images: TableView::empty(),
            machines: TableView::empty(),
            instances: TableView::empty(),
            processes: TableView::empty(),
        }
    }

    /// The identifiers that the node has assigned.
    pub open spec fn used_ids(self) -> Set<Seq<char>> {
        self.images.map.dom() + self.machines.map.dom() + self.instances.map.dom()
    }

    /// What holds of a node at all times:
    /// every record is stored under its own key; no identifier names two
    /// things; a machine holds the image it was made from and an instance
    /// the machine it was made from, as the node stores them; and an
    /// instance has a process exactly when it is started, namely the one
    /// that its record names.
    pub open spec fn valid(self) -> bool {
        &&& self.files.wf()
        &&& self.images.wf()
        &&& self.machines.wf()
        &&& self.instances.wf()
        &&& self.processes.wf()
        &&& forall|p: Seq<char>| #[trigger]
            self.files.contains(p) ==> self.files.map[p].file_path == p
        &&& forall|i: Seq<char>| #[trigger]
            self.images.contains(i) ==> self.images.map[i].image_id == i
        &&& forall|m: Seq<char>| #[trigger]
            self.machines.contains(m) ==> {
                &&& self.machines.map[m].machine_id == m
                &&& self.images.get(self.machines.map[m].image_metadata.image_id) == Some(
                    self.machines.map[m].image_metadata,
                )
            }
        &&& forall|x: Seq<char>| #[trigger]
            self.instances.contains(x) ==> {
                &&& self.instances.map[x].instance_id == x
                &&& self.machines.get(self.instances.map[x].machine.machine_id) == Some(
                    self.instances.map[x].machine,
                )
            }
        &&& forall|id: Seq<char>|
            !(#[trigger] self.images.contains(id) && #[trigger] self.machines.contains(id))
        &&& forall|id: Seq<char>|
            !(#[trigger] self.images.contains(id) && #[trigger] self.instances.contains(id))
        &&& forall|id: Seq<char>|
            !(#[trigger] self.machines.contains(id) && #[trigger] self.instances.contains(id))
        &&& forall|x: Seq<char>| #[trigger]
            self.processes.contains(x) <==> self.is_started(x)
        &&& forall|x: Seq<char>| #[trigger]
            self.processes.contains(x) ==> self.processes.map[x]
                == self.instances.map[x].process_id
    }

    /// Whether `id` names an instance that is started.
    pub open spec fn is_started(self, id: Seq<char>) -> bool {
        self.instances.contains(id) && self.instances.map[id].state == InstanceState::Started
    }

    /// The node after a file of `size` bytes has been declared at `path`.
    pub open spec fn with_file(self, path: Seq<char>, size: nat) -> NodeView {
        NodeView { files: self.files.put(path, file_record(path, size)), ..self }
    }

    /// The image that `id` names once it is declared for a file of `size`
    /// bytes at `path`.
    pub open spec fn image_record(id: Seq<char>, path: Seq<char>, size: nat) -> OsImageMetadataView {
        OsImageMetadataView { image_id: id, file_metadata: file_record(path, size) }
    }

    /// The node after image `id` has been declared for a file of `size`
    /// bytes at `path`: the file is declared, then the image.
    pub open spec fn with_image(self, id: Seq<char>, path: Seq<char>, size: nat) -> NodeView {
        NodeView {
            images: self.images.put(id, Self::image_record(id, path, size)),
            ..self.with_file(path, size)
        }
    }

    /// The machine that `id` names once it is made from image `image_id`.
    pub open spec fn machine_record(
        self,
        id: Seq<char>,
        image_id: Seq<char>,
        resources: Resources,
    ) -> MachineView {
        MachineView { machine_id: id, resources, image_metadata: self.images.map[image_id] }
    }

    /// The node after machine `id` has been made from image `image_id`.
    pub open spec fn with_machine(
        self,
        id: Seq<char>,
        image_id: Seq<char>,
        resources: Resources,
    ) -> NodeView {
        NodeView {
            machines: self.machines.put(id, self.machine_record(id, image_id, resources)),
            ..self
        }
    }

    /// The instance that `id` names once it is provisioned from machine
    /// `machine_id` and runs as process `process_id`.
    pub open spec fn instance_record(
        self,
        id: Seq<char>,
        machine_id: Seq<char>,
        process_id: ProcessId,
    ) -> InstanceView {
        InstanceView {
            instance_id: id,
            process_id,
            ip_address: instance_address(),
            machine: self.machines.map[machine_id],
            state: InstanceState::Started,
        }
    }

    /// The node after instance `id` has been provisioned from machine
    /// `machine_id` and runs as process `process_id`.
    pub open spec fn with_instance(
        self,
        id: Seq<char>,
        machine_id: Seq<char>,
        process_id: ProcessId,
    ) -> NodeView {
        NodeView {
            instances: self.instances.put(id, self.instance_record(id, machine_id, process_id)),
            processes: self.processes.put(id, process_id),
            ..self
        }
    }

    /// The node after instance `id` has been started as process
    /// `process_id`, which takes the place of the process it had, if any.
    pub open spec fn started(self, id: Seq<char>, process_id: ProcessId) -> NodeView {
        NodeView {
            instances: self.instances.put(
                id,
                InstanceView {
                    process_id,
                    state: InstanceState::Started,
                    ..self.instances.map[id]
                },
            ),
            processes: self.processes.put(id, process_id),
            ..self
        }
    }

    /// The node after instance `id` has been stopped: it has no process.
    pub open spec fn stopped(self, id: Seq<char>) -> NodeView {
        NodeView {
            instances: self.instances.put(
                id,
                InstanceView { state: InstanceState::Stopped, ..self.instances.map[id] },
            ),
            processes: self.processes.without(id),
            ..self
        }
    }

    /// The identifiers in use are finitely many.
    pub proof fn lemma_used_ids_finite(self)
        requires
            self.valid(),
        ensures
            self.used_ids().finite(),
    {
        self.images.lemma_finite();
        self.machines.lemma_finite();
        self.instances.lemma_finite();
    }

    /// Declaring a file keeps the node valid.
    pub proof fn lemma_with_file_valid(self, path: Seq<char>, size: nat)
        requires
            self.valid(),
        ensures
            self.with_file(path, size).valid(),
    {
        self.files.lemma_put_wf(path, file_record(path, size));
    }

    /// Declaring an image under a free identifier keeps the node valid.
    pub proof fn lemma_with_image_valid(self, id: Seq<char>, path: Seq<char>, size: nat)
        requires
            self.valid(),
            !self.used_ids().contains(id),
        ensures
            self.with_image(id, path, size).valid(),
    {
        let after = self.with_image(id, path, size);
        self.files.lemma_put_wf(path, file_record(path, size));
        self.images.lemma_put_wf(id, Self::image_record(id, path, size));
        assert forall|m: Seq<char>| #[trigger] after.machines.contains(m) implies after.images.get(
            after.machines.map[m].image_metadata.image_id,
        ) == Some(after.machines.map[m].image_metadata) by {
            assert(self.machines.contains(m));
            assert(self.images.contains(self.machines.map[m].image_metadata.image_id));
        }
    }

    /// Making a machine under a free identifier from an image that the
    /// node holds keeps the node valid.
    pub proof fn lemma_with_machine_valid(
        self,
        id: Seq<char>,
        image_id: Seq<char>,
        resources: Resources,
    )
        requires
            self.valid(),
            !self.used_ids().contains(id),
            self.images.contains(image_id),
        ensures
            self.with_machine(id, image_id, resources).valid(),
    {
        let after = self.with_machine(id, image_id, resources);
        self.machines.lemma_put_wf(id, self.machine_record(id, image_id, resources));
        assert forall|x: Seq<char>| #[trigger] after.instances.contains(x) implies after.machines.get(
            after.instances.map[x].machine.machine_id,
        ) == Some(after.instances.map[x].machine) by {
            assert(self.instances.contains(x));
            assert(self.machines.contains(self.instances.map[x].machine.machine_id));
        }
    }

    /// Provisioning an instance under a free identifier from a machine
    /// that the node holds keeps the node valid.
    pub proof fn lemma_with_instance_valid(
        self,
        id: Seq<char>,
        machine_id: Seq<char>,
        process_id: ProcessId,
    )
        requires
            self.valid(),
            !self.used_ids().contains(id),
            self.machines.contains(machine_id),
        ensures
            self.with_instance(id, machine_id, process_id).valid(),
    {
        let after = self.with_instance(id, machine_id, process_id);
        self.instances.lemma_put_wf(id, self.instance_record(id, machine_id, process_id));
        self.processes.lemma_put_wf(id, process_id);
        assert forall|x: Seq<char>| #[trigger]
            after.processes.contains(x) <==> after.is_started(x) by {
            if x != id {
                assert(self.processes.contains(x) <==> self.is_started(x));
            }
        }
        assert forall|x: Seq<char>| #[trigger] after.processes.contains(x) implies after.processes.map[x]
            == after.instances.map[x].process_id by {
            if x != id {
                assert(self.processes.contains(x));
            }
        }
    }

    /// Starting an instance that the node holds keeps the node valid.
    pub proof fn lemma_started_valid(self, id: Seq<char>, process_id: ProcessId)
        requires
            self.valid(),
            self.instances.contains(id),
        ensures
            self.started(id, process_id).valid(),
    {
        let after = self.started(id, process_id);
        let record = InstanceView {
            process_id,
            state: InstanceState::Started,
            ..self.instances.map[id]
        };
        self.instances.lemma_put_wf(id, record);
        self.processes.lemma_put_wf(id, process_id);
        assert forall|x: Seq<char>| #[trigger]
            after.processes.contains(x) <==> after.is_started(x) by {
            if x != id {
                assert(self.processes.contains(x) <==> self.is_started(x));
            }
        }
        assert forall|x: Seq<char>| #[trigger] after.processes.contains(x) implies after.processes.map[x]
            == after.instances.map[x].process_id by {
            if x != id {
                assert(self.processes.contains(x));
            }
        }
        assert forall|x: Seq<char>| #[trigger] after.instances.contains(x) implies after.instances.map[x].instance_id
            == x && after.machines.get(after.instances.map[x].machine.machine_id) == Some(
            after.instances.map[x].machine,
        ) by {
            assert(self.instances.contains(x));
        }
    }

    /// Stopping an instance that the node holds keeps the node valid.
    pub proof fn lemma_stopped_valid(self, id: Seq<char>)
        requires
            self.valid(),
            self.instances.contains(id),
        ensures
            self.stopped(id).valid(),
    {
        let after = self.stopped(id);
        let record = InstanceView { state: InstanceState::Stopped, ..self.instances.map[id] };
        self.instances.lemma_put_wf(id, record);
        self.processes.lemma_without_wf(id);
        assert forall|x: Seq<char>| #[trigger]
            after.processes.contains(x) <==> after.is_started(x) by {
            if x != id {
                assert(self.processes.contains(x) <==> self.is_started(x));
            }
        }
        assert forall|x: Seq<char>| #[trigger] after.processes.contains(x) implies after.processes.map[x]
            == after.instances.map[x].process_id by {
            assert(self.processes.contains(x));
        }
        assert forall|x: Seq<char>| #[trigger] after.instances.contains(x) implies after.instances.map[x].instance_id
            == x && after.machines.get(after.instances.map[x].machine.machine_id) == Some(
            after.instances.map[x].machine,
        ) by {
            assert(self.instances.contains(x));
        }
    }
}

/// A request that changes a node, with what the node cannot decide by
/// itself: the random candidate for a new identifier and the process that
/// was launched.
pub enum NodeOp {
    CreateFile { path: Seq<char>, size: nat },
    CreateImage { candidate: Seq<char>, path: Seq<char>, size: nat },
    CreateMachine { candidate: Seq<char>, image_id: Seq<char>, resources: Resources },
    Provision { candidate: Seq<char>, machine_id: Seq<char>, process_id: ProcessId },
    Start { instance_id: Seq<char>, process_id: ProcessId },
    Stop { instance_id: Seq<char> },
}

/// The identifier that request `op` assigns in state `s`, if it assigns
/// one: creating an image always does, creating a machine where the image
/// is known, provisioning where the machine is.
pub open spec fn issued(s: NodeView, op: NodeOp) -> Option<Seq<char>> {
    match op {
        NodeOp::CreateImage { candidate, .. } => Some(fresh_from(s.used_ids(), candidate)),
        NodeOp::CreateMachine { candidate, image_id, .. } => if s.images.contains(image_id) {
            Some(fresh_from(s.used_ids(), candidate))
        } else {
            None
        },
        NodeOp::Provision { candidate, machine_id, .. } => if s.machines.contains(machine_id) {
            Some(fresh_from(s.used_ids(), candidate))
        } else {
            None
        },
        _ => None,
    }
}

/// The state after request `op` in state `s`. A request that names what
/// the node does not hold changes nothing.
pub open spec fn apply(s: NodeView, op: NodeOp) -> NodeView {
    match op {
        NodeOp::CreateFile { path, size } => s.with_file(path, size),
        NodeOp::CreateImage { candidate, path, size } => s.with_image(
            fresh_from(s.used_ids(), candidate),
            path,
            size,
        ),
        NodeOp::CreateMachine { candidate, image_id, resources } => if s.images.contains(
            image_id,
        ) {
            s.with_machine(fresh_from(s.used_ids(), candidate), image_id, resources)
        } else {
            s
        },
        NodeOp::Provision { candidate, machine_id, process_id } => if s.machines.contains(
            machine_id,
        ) {
            s.with_instance(fresh_from(s.used_ids(), candidate), machine_id, process_id)
        } else {
            s
        },
        NodeOp::Start { instance_id, process_id } => if s.instances.contains(instance_id) {
            s.started(instance_id, process_id)
        } else {
            s
        },
        NodeOp::Stop { instance_id } => if s.instances.contains(instance_id) {
            s.stopped(instance_id)
        } else {
            s
        },
    }
}

/// The state after the requests `ops`, one after the other.
pub open spec fn run(s: NodeView, ops: Seq<NodeOp>) -> NodeView
    decreases ops.len(),
{
    if ops.len() == 0 {
        s
    } else {
        apply(run(s, ops.drop_last()), ops.last())
    }
}

/// Every request keeps a valid node valid and takes no identifier back;
/// the identifier it assigns was free before and is in use after.
pub proof fn law_step(s: NodeView, op: NodeOp)
    requires
        s.valid(),
    ensures
        apply(s, op).valid(),
        s.used_ids().subset_of(apply(s, op).used_ids()),
        issued(s, op) matches Some(id) ==> !s.used_ids().contains(id) && apply(
            s,
            op,
        ).used_ids().contains(id),
{
    s.lemma_used_ids_finite();
    match op {
        NodeOp::CreateFile { path, size } => {
            s.lemma_with_file_valid(path, size);
        },
        NodeOp::CreateImage { candidate, path, size } => {
            lemma_fresh_from(s.used_ids(), candidate);
            s.lemma_with_image_valid(fresh_from(s.used_ids(), candidate), path, size);
        },
        NodeOp::CreateMachine { candidate, image_id, resources } => {
            if s.images.contains(image_id) {
                lemma_fresh_from(s.used_ids(), candidate);
                s.lemma_with_machine_valid(
                    fresh_from(s.used_ids(), candidate),
                    image_id,
                    resources,
                );
            }
        },
        NodeOp::Provision { candidate, machine_id, process_id } => {
            if s.machines.contains(machine_id) {
                lemma_fresh_from(s.used_ids(), candidate);
                s.lemma_with_instance_valid(
                    fresh_from(s.used_ids(), candidate),
                    machine_id,
                    process_id,
                );
            }
        },
        NodeOp::Start { instance_id, process_id } => {
            if s.instances.contains(instance_id) {
                s.lemma_started_valid(instance_id, process_id);
            }
        },
        NodeOp::Stop { instance_id } => {
            if s.instances.contains(instance_id) {
                s.lemma_stopped_valid(instance_id);
            }
        },
    }
}

/// Invariant: whatever requests a node serves, it stays valid, and an
/// identifier that was in use stays in use.
pub proof fn law_run(s: NodeView, ops: Seq<NodeOp>)
    requires
        s.valid(),
    ensures
        run(s, ops).valid(),
        s.used_ids().subset_of(run(s, ops).used_ids()),
    decreases ops.len(),
{
    if ops.len() > 0 {
        law_run(s, ops.drop_last());
        law_step(run(s, ops.drop_last()), ops.last());
    }
}

/// Uniqueness: in the lifetime of a node no identifier is assigned twice.
/// Whatever requests the node serves, the identifier that request `i`
/// assigns differs from the one that a later request `j` assigns.
pub proof fn law_unique_ids(s: NodeView, ops: Seq<NodeOp>, i: int, j: int)
    requires
        s.valid(),
        0 <= i < j < ops.len(),
        issued(run(s, ops.take(i)), ops[i]) is Some,
        issued(run(s, ops.take(j)), ops[j]) is Some,
    ensures
        issued(run(s, ops.take(i)), ops[i]) != issued(run(s, ops.take(j)), ops[j]),
{
    let before_i = run(s, ops.take(i));
    let after_i = apply(before_i, ops[i]);
    let before_j = run(s, ops.take(j));
    law_run(s, ops.take(i));
    law_step(before_i, ops[i]);
    assert(ops.take(i + 1).drop_last() =~= ops.take(i));
    assert(run(s, ops.take(i + 1)) == after_i);
    let between = ops.subrange(i + 1, j);
    lemma_run_append(s, ops.take(i + 1), between);
    assert(ops.take(i + 1) + between =~= ops.take(j));
    law_run(after_i, between);
    law_run(s, ops.take(j));
    law_step(before_j, ops[j]);
}

/// Serving two runs of requests one after the other is serving their
/// concatenation.
pub proof fn lemma_run_append(s: NodeView, first: Seq<NodeOp>, second: Seq<NodeOp>)
    ensures
        run(s, first + second) == run(run(s, first), second),
    decreases second.len(),
{
    if second.len() == 0 {
        assert(first + second =~= first);
    } else {
        lemma_run_append(s, first, second.drop_last());
        assert((first + second).drop_last() =~= first + second.drop_last());
    }
}

/// Lifecycle: an instance that has just been provisioned is started and
/// has the process it was provisioned with; once stopped it is stopped and
/// has no process; started again it is started and has the new process.
pub proof fn law_lifecycle(
    s: NodeView,
    candidate: Seq<char>,
    machine_id: Seq<char>,
    first: ProcessId,
    second: ProcessId,
)
    requires
        s.valid(),
        s.machines.contains(machine_id),
    ensures
        ({
            let id = fresh_from(s.used_ids(), candidate);
            let provisioned = apply(
                s,
                NodeOp::Provision { candidate, machine_id, process_id: first },
            );
            let stopped = apply(provisioned, NodeOp::Stop { instance_id: id });
            let restarted = apply(stopped, NodeOp::Start { instance_id: id, process_id: second });
            &&& provisioned.instances.get(id) == Some(s.instance_record(id, machine_id, first))
            &&& provisioned.is_started(id)
            &&& provisioned.processes.get(id) == Some(first)
            &&& stopped.instances.contains(id)
            &&& stopped.instances.map[id].state == InstanceState::Stopped
            &&& !stopped.processes.contains(id)
            &&& restarted.is_started(id)
            &&& restarted.processes.get(id) == Some(second)
            &&& restarted.instances.map[id].machine == s.machines.map[machine_id]
        }),
{
}

} // verus!
