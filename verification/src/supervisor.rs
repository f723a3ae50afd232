//! The supervisor: a state machine ordering everything the parent process
//! does, from reading the sub-id tables to tearing the container down.
//!
//! The machine decides; an unverified driver performs each emitted action
//! and reports its outcome. The order is load-bearing: both sub-id tables
//! are read and parsed before anything is built, so a malformed table stops
//! the run before a cgroup or a child exists; no map file is written until
//! the child's user-namespace byte has arrived; `setgroups` receives `deny`
//! before the gid map is written; the release byte is sent only once the
//! map writes are done; and from the wait onward teardown is always
//! attempted, step by step, whatever fails.

use vstd::prelude::*;

use crate::mapping::{IdMapping, MappingError};

verus! {

/// The fixed resource limits of the container's control group.
#[derive(Debug, Clone)]
pub struct CgroupSpec {
    /// Name of the group.
    pub name: Vec<u8>,
    /// Kernel-memory limit in bytes.
    pub kernel_memory_limit: i64,
    /// Memory hard limit in bytes.
    pub memory_hard_limit: i64,
    /// Ceiling on the number of processes.
    pub max_processes: i64,
    /// CPU shares granted to the group.
    pub cpu_shares: u64,
}

/// The group's name: `bento`.
pub open spec fn cgroup_name() -> Seq<u8> {
    seq![98u8, 101u8, 110u8, 116u8, 111u8]
}

/// The control group the supervisor builds and joins: one gibibyte of
/// kernel memory and of memory overall, at most ten processes, 250 CPU
/// shares.
pub fn cgroup_spec() -> (r: CgroupSpec)
    ensures
        r.name@ == cgroup_name(),
        r.kernel_memory_limit == 0x40000000,
        r.memory_hard_limit == 0x40000000,
        r.max_processes == 10,
        r.cpu_shares == 250,
{
    let mut name: Vec<u8> = Vec::new();
    name.push(98);
    name.push(101);
    name.push(110);
    name.push(116);
    name.push(111);
    proof {
        assert(name@ =~= cgroup_name());
    }
    CgroupSpec {
        name,
        kernel_memory_limit: 0x40000000,
        memory_hard_limit: 0x40000000,
        max_processes: 10,
        cpu_shares: 250,
    }
}

/// The namespaces the clone creates for the child. The user namespace is
/// deliberately absent: the child requests it itself after the clone, so
/// that the supervisor can write the id maps before the child changes
/// identity.
#[derive(Debug, Clone, Copy, PartialEq, Eq, Structural)]
pub enum NamespaceKind {
    Cgroup,
    Ipc,
    Network,
    Mount,
    Pid,
    Uts,
}

/// The namespace set passed to the clone, besides the descriptor sharing
/// that carries the child's socket end across.
pub fn clone_namespaces() -> (r: Vec<NamespaceKind>)
    ensures
        r@ == seq![
            NamespaceKind::Cgroup,
            NamespaceKind::Ipc,
            NamespaceKind::Network,
            NamespaceKind::Mount,
            NamespaceKind::Pid,
            NamespaceKind::Uts,
        ],
{
    let mut r: Vec<NamespaceKind> = Vec::new();
    r.push(NamespaceKind::Cgroup);
    r.push(NamespaceKind::Ipc);
    r.push(NamespaceKind::Network);
    r.push(NamespaceKind::Mount);
    r.push(NamespaceKind::Pid);
    r.push(NamespaceKind::Uts);
    proof {
        assert(r@ =~= seq![
            NamespaceKind::Cgroup,
            NamespaceKind::Ipc,
            NamespaceKind::Network,
            NamespaceKind::Mount,
            NamespaceKind::Pid,
            NamespaceKind::Uts,
        ]);
    }
    r
}

/// Where the supervisor stands; each working phase names the operation the
/// driver has been asked to perform.
#[derive(Debug, Clone, Copy, PartialEq, Eq, Structural)]
pub enum SupPhase {
    Starting,
    ReadingSubuid,
    ReadingSubgid,
    BuildingCgroup,
    CreatingSockets,
    Cloning,
    AwaitingUserNs,
    WritingUidMap,
    WritingSetgroups,
    WritingGidMap,
    Releasing,
    Waiting,
    ShuttingSocket,
    DetachingCgroup,
    DeletingCgroup,
    Done,
    Failed,
}

/// What the driver reports back after each action.
#[derive(Debug)]
pub enum SupEvent {
    /// Start the run.
    Begin,
    /// Result of reading and parsing one sub-id table.
    TableLookup { found: Result<Option<IdMapping>, MappingError> },
    /// The requested operation completed.
    Succeeded,
    /// The requested operation failed.
    Errored,
    /// The clone produced a child with this process id.
    Cloned { pid: u32 },
    /// The byte received from the child.
    ChildByte { byte: u8 },
    /// The child terminated normally with this exit code.
    ChildExited { code: i32 },
    /// The child was terminated by this signal.
    ChildSignaled { signal: i32 },
    /// The wait itself failed or returned something else entirely.
    ChildStatusUnknown,
}

/// What the driver must do next.
#[derive(Debug, Clone, Copy, PartialEq, Eq, Structural)]
pub enum SupAction {
    /// Read `/etc/subuid` and look the invoking user up in it.
    LookupSubuid,
    /// Read `/etc/subgid` and look the invoking group up in it.
    LookupSubgid,
    /// Create the control group per `cgroup_spec` and attach this process.
    BuildCgroup,
    /// Create the connected datagram pair for the handshake.
    CreateSocketPair,
    /// Clone the child with the new-namespace flags, sharing descriptors.
    CloneChild,
    /// Receive the child's user-namespace byte.
    AwaitChildByte,
    /// Write `0 <sub_start> <sub_count>` to the child's `uid_map`.
    WriteUidMap { pid: u32, sub_start: u32, sub_count: u32 },
    /// Write `deny` to the child's `setgroups`, required before a gid map.
    WriteSetgroupsDeny { pid: u32 },
    /// Write `0 <sub_start> <sub_count>` to the child's `gid_map`.
    WriteGidMap { pid: u32, sub_start: u32, sub_count: u32 },
    /// Send the release byte to the child.
    SendRelease { byte: u8 },
    /// Wait for the child to terminate.
    WaitChild { pid: u32 },
    /// Shut the socket down in both directions.
    ShutdownSocket,
    /// Detach this process from the control group.
    DetachCgroup,
    /// Delete the control group.
    DeleteCgroup,
    /// End the run with this exit code: zero exactly on orchestrated
    /// success, whatever the child's own exit code was.
    Exit { code: u8 },
}

/// Which events a phase can legitimately receive.
pub open spec fn sup_expects(phase: SupPhase, ev: SupEvent) -> bool {
    match (phase, ev) {
        (SupPhase::Starting, SupEvent::Begin) => true,
        (SupPhase::ReadingSubuid, SupEvent::TableLookup { found }) => found is Ok,
        (SupPhase::ReadingSubgid, SupEvent::TableLookup { found }) => found is Ok,
        (SupPhase::BuildingCgroup, SupEvent::Succeeded) => true,
        (SupPhase::CreatingSockets, SupEvent::Succeeded) => true,
        (SupPhase::Cloning, SupEvent::Cloned { .. }) => true,
        (SupPhase::AwaitingUserNs, SupEvent::ChildByte { .. }) => true,
        (SupPhase::WritingUidMap, SupEvent::Succeeded) => true,
        (SupPhase::WritingSetgroups, SupEvent::Succeeded) => true,
        (SupPhase::WritingGidMap, SupEvent::Succeeded) => true,
        (SupPhase::Releasing, SupEvent::Succeeded) => true,
        (SupPhase::Waiting, SupEvent::ChildExited { .. }) => true,
        (SupPhase::Waiting, SupEvent::ChildSignaled { .. }) => true,
        (SupPhase::Waiting, SupEvent::ChildStatusUnknown) => true,
        (SupPhase::ShuttingSocket, SupEvent::Succeeded) => true,
        (SupPhase::ShuttingSocket, SupEvent::Errored) => true,
        (SupPhase::DetachingCgroup, SupEvent::Succeeded) => true,
        (SupPhase::DetachingCgroup, SupEvent::Errored) => true,
        (SupPhase::DeletingCgroup, SupEvent::Succeeded) => true,
        (SupPhase::DeletingCgroup, SupEvent::Errored) => true,
        _ => false,
    }
}

/// After the child's byte arrives, the map-writing leg the supervisor takes:
/// what the first action is depends on the byte and on which tables had an
/// entry.
pub open spec fn first_map_action(
    userns: bool,
    uid_mapping: Option<IdMapping>,
    gid_mapping: Option<IdMapping>,
    pid: u32,
) -> (SupPhase, SupAction) {
    if !userns {
        (SupPhase::Releasing, SupAction::SendRelease { byte: 1u8 })
    } else if uid_mapping is Some {
        (
            SupPhase::WritingUidMap,
            SupAction::WriteUidMap {
                pid,
                sub_start: uid_mapping->0.sub_start,
                sub_count: uid_mapping->0.sub_count,
            },
        )
    } else if gid_mapping is Some {
        (SupPhase::WritingSetgroups, SupAction::WriteSetgroupsDeny { pid })
    } else {
        (SupPhase::Releasing, SupAction::SendRelease { byte: 1u8 })
    }
}

/// The supervisor's half of the run.
#[derive(Debug)]
pub struct Supervisor {
    pub phase: SupPhase,
    /// The `/etc/subuid` entry for the invoking user, once read.
    pub uid_mapping: Option<IdMapping>,
    /// The `/etc/subgid` entry for the invoking group, once read.
    pub gid_mapping: Option<IdMapping>,
    /// The child's process id, once cloned.
    pub child_pid: u32,
    /// Whether the child reported entering a new user namespace.
    pub child_userns: bool,
    /// Whether an orchestration step failed on the teardown path.
    pub orch_error: bool,
}

impl Supervisor {
    /// A fresh supervisor, nothing read, nothing built.
    pub fn new() -> (m: Supervisor)
        ensures
            m.phase == SupPhase::Starting,
            m.uid_mapping is None,
            m.gid_mapping is None,
            m.child_pid == 0,
            !m.child_userns,
            !m.orch_error,
    {
        Supervisor {
            phase: SupPhase::Starting,
            uid_mapping: None,
            gid_mapping: None,
            child_pid: 0,
            child_userns: false,
            orch_error: false,
        }
    }

    /// Advance on the outcome of the last action and emit the next one.
    ///
    /// A malformed sub-id table, or any failure before the wait, ends the
    /// run with exit code 1 — in particular before any cgroup or child
    /// exists when a table is bad. The child's own fate — any exit code, or
    /// death by a signal — is only reported and leaves the supervisor's exit
    /// untouched; a wait that cannot be read at all does poison it. From the
    /// wait onward every teardown step is still attempted; a failure there
    /// only poisons the exit code.
    pub fn step(&mut self, ev: SupEvent) -> (r: SupAction)
        ensures
            // what never changes behind the driver's back
            final(self).child_pid == (if old(self).phase == SupPhase::Cloning && (ev is Cloned) {
                ev->pid
            } else {
                old(self).child_pid
            }),
            old(self).phase != SupPhase::ReadingSubuid ==> final(self).uid_mapping == old(
                self,
            ).uid_mapping,
            old(self).phase != SupPhase::ReadingSubgid ==> final(self).gid_mapping == old(
                self,
            ).gid_mapping,
            // the transition table
            old(self).phase == SupPhase::Starting && (ev is Begin) ==> final(self).phase == SupPhase::ReadingSubuid && r == SupAction::LookupSubuid,
            ev matches SupEvent::TableLookup { found: Ok(m) } ==> old(self).phase
                == SupPhase::ReadingSubuid ==> final(self).phase == SupPhase::ReadingSubgid && r
                == SupAction::LookupSubgid && final(self).uid_mapping == m,
            ev matches SupEvent::TableLookup { found: Ok(m) } ==> old(self).phase
                == SupPhase::ReadingSubgid ==> final(self).phase == SupPhase::BuildingCgroup && r
                == SupAction::BuildCgroup && final(self).gid_mapping == m,
            ev matches SupEvent::TableLookup { found: Err(e) } ==> (old(self).phase
                == SupPhase::ReadingSubuid || old(self).phase == SupPhase::ReadingSubgid) ==> final(self).phase == SupPhase::Failed && r == (SupAction::Exit { code: 1u8 }),
            old(self).phase == SupPhase::BuildingCgroup && (ev is Succeeded) ==> final(self).phase == SupPhase::CreatingSockets && r == SupAction::CreateSocketPair,
            old(self).phase == SupPhase::CreatingSockets && (ev is Succeeded) ==> final(self).phase == SupPhase::Cloning && r == SupAction::CloneChild,
            ev matches SupEvent::Cloned { pid } ==> old(self).phase == SupPhase::Cloning ==> final(self).phase == SupPhase::AwaitingUserNs && r == SupAction::AwaitChildByte && final(self).child_pid == pid,
            ev matches SupEvent::ChildByte { byte } ==> old(self).phase == SupPhase::AwaitingUserNs
                ==> (final(self).phase, r) == first_map_action(
                byte != 0,
                old(self).uid_mapping,
                old(self).gid_mapping,
                old(self).child_pid,
            ) && final(self).child_userns == (byte != 0),
            old(self).phase == SupPhase::WritingUidMap && (ev is Succeeded) ==> if old(
                self,
            ).gid_mapping is Some {
                final(self).phase == SupPhase::WritingSetgroups && r == (
                SupAction::WriteSetgroupsDeny { pid: old(self).child_pid })
            } else {
                final(self).phase == SupPhase::Releasing && r == (SupAction::SendRelease {
                    byte: 1u8,
                })
            },
            old(self).phase == SupPhase::WritingSetgroups && (ev is Succeeded) && old(
                self,
            ).gid_mapping is Some ==> final(self).phase == SupPhase::WritingGidMap && r == (
            SupAction::WriteGidMap {
                pid: old(self).child_pid,
                sub_start: old(self).gid_mapping->0.sub_start,
                sub_count: old(self).gid_mapping->0.sub_count,
            }),
            old(self).phase == SupPhase::WritingSetgroups && (ev is Succeeded) && old(
                self,
            ).gid_mapping is None ==> final(self).phase == SupPhase::Failed && r == (
            SupAction::Exit { code: 1u8 }),
            old(self).phase == SupPhase::WritingGidMap && (ev is Succeeded) ==> final(self).phase == SupPhase::Releasing && r == (SupAction::SendRelease { byte: 1u8 }),
            old(self).phase == SupPhase::Releasing && (ev is Succeeded) ==> final(self).phase == SupPhase::Waiting && r == (SupAction::WaitChild {
                pid: old(self).child_pid,
            }),
            // the child's own fate - any exit code, or death by a signal -
            // is reported, not adopted
            ev matches SupEvent::ChildExited { code } ==> old(self).phase == SupPhase::Waiting
                ==> final(self).phase == SupPhase::ShuttingSocket && r == SupAction::ShutdownSocket
                && final(self).orch_error == old(self).orch_error,
            ev matches SupEvent::ChildSignaled { signal } ==> old(self).phase == SupPhase::Waiting
                ==> final(self).phase == SupPhase::ShuttingSocket && r == SupAction::ShutdownSocket
                && final(self).orch_error == old(self).orch_error,
            old(self).phase == SupPhase::Waiting && (ev is ChildStatusUnknown)
                ==> final(self).phase == SupPhase::ShuttingSocket && r
                == SupAction::ShutdownSocket && final(self).orch_error,
            // teardown always runs to the end, errors only poison the code
            old(self).phase == SupPhase::ShuttingSocket && ((ev is Succeeded) || ev
                matches SupEvent::Errored) ==> final(self).phase == SupPhase::DetachingCgroup && r
                == SupAction::DetachCgroup && final(self).orch_error == (old(self).orch_error || ev
                matches SupEvent::Errored),
            old(self).phase == SupPhase::DetachingCgroup && ((ev is Succeeded) || ev
                matches SupEvent::Errored) ==> final(self).phase == SupPhase::DeletingCgroup && r
                == SupAction::DeleteCgroup && final(self).orch_error == (old(self).orch_error || ev
                matches SupEvent::Errored),
            old(self).phase == SupPhase::DeletingCgroup && ((ev is Succeeded) || ev
                matches SupEvent::Errored) ==> final(self).phase == SupPhase::Done && r is Exit
                && final(self).orch_error == (old(self).orch_error || (ev is Errored)),
            !sup_expects(old(self).phase, ev) ==> final(self).phase == SupPhase::Failed && r == (
            SupAction::Exit { code: 1u8 }),
            // ordering guarantees, stated on their own
            r matches SupAction::WriteUidMap { pid, .. } ==> old(self).phase
                == SupPhase::AwaitingUserNs && (ev matches SupEvent::ChildByte { byte } && byte
                != 0) && pid == old(self).child_pid && old(self).uid_mapping is Some,
            r matches SupAction::WriteGidMap { pid, .. } ==> old(self).phase
                == SupPhase::WritingSetgroups && pid == old(self).child_pid && old(
                self,
            ).gid_mapping is Some,
            r matches SupAction::SendRelease { byte } ==> byte == 1,
            r matches SupAction::Exit { code } ==> (code == 0 <==> final(self).phase
                == SupPhase::Done && !final(self).orch_error),
    {
        match (self.phase, ev) {
            (SupPhase::Starting, SupEvent::Begin) => {
                self.phase = SupPhase::ReadingSubuid;
                SupAction::LookupSubuid
            },
            (SupPhase::ReadingSubuid, SupEvent::TableLookup { found }) => {
                match found {
                    Ok(m) => {
                        self.uid_mapping = m;
                        self.phase = SupPhase::ReadingSubgid;
                        SupAction::LookupSubgid
                    },
                    Err(_) => {
                        self.phase = SupPhase::Failed;
                        SupAction::Exit { code: 1 }
                    },
                }
            },
            (SupPhase::ReadingSubgid, SupEvent::TableLookup { found }) => {
                match found {
                    Ok(m) => {
                        self.gid_mapping = m;
                        self.phase = SupPhase::BuildingCgroup;
                        SupAction::BuildCgroup
                    },
                    Err(_) => {
                        self.phase = SupPhase::Failed;
                        SupAction::Exit { code: 1 }
                    },
                }
            },
            (SupPhase::BuildingCgroup, SupEvent::Succeeded) => {
                self.phase = SupPhase::CreatingSockets;
                SupAction::CreateSocketPair
            },
            (SupPhase::CreatingSockets, SupEvent::Succeeded) => {
                self.phase = SupPhase::Cloning;
                SupAction::CloneChild
            },
            (SupPhase::Cloning, SupEvent::Cloned { pid }) => {
                self.child_pid = pid;
                self.phase = SupPhase::AwaitingUserNs;
                SupAction::AwaitChildByte
            },
            (SupPhase::AwaitingUserNs, SupEvent::ChildByte { byte }) => {
                let userns = crate::protocol::decode_bool(byte);
                self.child_userns = userns;
                if !userns {
                    self.phase = SupPhase::Releasing;
                    SupAction::SendRelease { byte: 1 }
                } else {
                    match &self.uid_mapping {
                        Some(m) => {
                            let a = SupAction::WriteUidMap {
                                pid: self.child_pid,
                                sub_start: m.sub_start,
                                sub_count: m.sub_count,
                            };
                            self.phase = SupPhase::WritingUidMap;
                            a
                        },
                        None => {
                            if self.gid_mapping.is_some() {
                                self.phase = SupPhase::WritingSetgroups;
                                SupAction::WriteSetgroupsDeny { pid: self.child_pid }
                            } else {
                                self.phase = SupPhase::Releasing;
                                SupAction::SendRelease { byte: 1 }
                            }
                        },
                    }
                }
            },
            (SupPhase::WritingUidMap, SupEvent::Succeeded) => {
                if self.gid_mapping.is_some() {
                    self.phase = SupPhase::WritingSetgroups;
                    SupAction::WriteSetgroupsDeny { pid: self.child_pid }
                } else {
                    self.phase = SupPhase::Releasing;
                    SupAction::SendRelease { byte: 1 }
                }
            },
            (SupPhase::WritingSetgroups, SupEvent::Succeeded) => {
                match &self.gid_mapping {
                    Some(m) => {
                        let a = SupAction::WriteGidMap {
                            pid: self.child_pid,
                            sub_start: m.sub_start,
                            sub_count: m.sub_count,
                        };
                        self.phase = SupPhase::WritingGidMap;
                        a
                    },
                    None => {
                        self.phase = SupPhase::Failed;
                        SupAction::Exit { code: 1 }
                    },
                }
            },
            (SupPhase::WritingGidMap, SupEvent::Succeeded) => {
                self.phase = SupPhase::Releasing;
                SupAction::SendRelease { byte: 1 }
            },
            (SupPhase::Releasing, SupEvent::Succeeded) => {
                self.phase = SupPhase::Waiting;
                SupAction::WaitChild { pid: self.child_pid }
            },
            (SupPhase::Waiting, SupEvent::ChildExited { .. }) => {
                self.phase = SupPhase::ShuttingSocket;
                SupAction::ShutdownSocket
            },
            (SupPhase::Waiting, SupEvent::ChildSignaled { .. }) => {
                self.phase = SupPhase::ShuttingSocket;
                SupAction::ShutdownSocket
            },
            (SupPhase::Waiting, SupEvent::ChildStatusUnknown) => {
                self.orch_error = true;
                self.phase = SupPhase::ShuttingSocket;
                SupAction::ShutdownSocket
            },
            (SupPhase::ShuttingSocket, SupEvent::Succeeded) => {
                self.phase = SupPhase::DetachingCgroup;
                SupAction::DetachCgroup
            },
            (SupPhase::ShuttingSocket, SupEvent::Errored) => {
                self.orch_error = true;
                self.phase = SupPhase::DetachingCgroup;
                SupAction::DetachCgroup
            },
            (SupPhase::DetachingCgroup, SupEvent::Succeeded) => {
                self.phase = SupPhase::DeletingCgroup;
                SupAction::DeleteCgroup
            },
            (SupPhase::DetachingCgroup, SupEvent::Errored) => {
                self.orch_error = true;
                self.phase = SupPhase::DeletingCgroup;
                SupAction::DeleteCgroup
            },
            (SupPhase::DeletingCgroup, SupEvent::Succeeded) => {
                self.phase = SupPhase::Done;
                SupAction::Exit { code: if self.orch_error { 1 } else { 0 } }
            },
            (SupPhase::DeletingCgroup, SupEvent::Errored) => {
                self.orch_error = true;
                self.phase = SupPhase::Done;
                SupAction::Exit { code: 1 }
            },
            _ => {
                self.phase = SupPhase::Failed;
                SupAction::Exit { code: 1 }
            },
        }
    }
}

} // verus!
