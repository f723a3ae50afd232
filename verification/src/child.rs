//! The child bootstrap: a state machine fixing the strict order of the
//! privileged steps between the clone and the final `execve`.
//!
//! The machine decides; an unverified driver performs. Each call to `step`
//! consumes the outcome of the action performed last and emits the next
//! action. The order is load-bearing: files are staged before the pivot
//! because staging reads host paths; the user-namespace `unshare` precedes
//! the mapping handshake; no identity-changing call is made until the
//! supervisor has confirmed the maps with the byte `0x01`; the seccomp
//! filter — which forbids further user-namespace creation — is installed
//! only after the `unshare`; and any failure aborts the child with exit
//! code 1.

use vstd::prelude::*;

use crate::config::ContainerConfig;

verus! {

/// Where the child stands; each working phase names the operation the
/// driver has been asked to perform.
#[derive(Debug, Clone, Copy, PartialEq, Eq, Structural)]
pub enum ChildPhase {
    /// Config and socket received as clone arguments; nothing asked yet.
    Entered,
    SettingHostname,
    PrivatizingRoot,
    BindingRoot,
    Staging,
    Pivoting,
    Unsharing,
    SendingUserNs,
    AwaitingMapping,
    ApplyingIdentity,
    DroppingCaps,
    InstallingFilter,
    Executing,
    Failed,
}

/// What the driver reports back after each action.
#[derive(Debug, Clone, Copy, PartialEq, Eq, Structural)]
pub enum ChildEvent {
    /// Start the bootstrap.
    Begin,
    /// The requested operation completed.
    Succeeded,
    /// The requested operation failed.
    Errored,
    /// Outcome of the user-namespace request; failure is acceptable.
    UnshareOutcome { created: bool },
    /// The byte received while awaiting the mapping confirmation.
    MappingByte { byte: u8 },
}

/// What the driver must do next.
#[derive(Debug, Clone, Copy, PartialEq, Eq, Structural)]
pub enum ChildAction {
    /// Apply the configured hostname (emitted only when one is set).
    SetHostname,
    /// Recursively remount the host root private, stopping mount-event
    /// propagation back to the host.
    PrivatizeHostRoot,
    /// Bind-mount the new root directory onto itself, private.
    BindMountNewRoot,
    /// Resolve the dependency closure and copy it into the new root,
    /// read-only.
    StageFiles,
    /// `chdir` into the new root, pivot onto itself, lazily unmount the
    /// old root.
    SwitchRoot,
    /// Request a new user namespace; report the outcome either way.
    UnshareUser,
    /// Send the user-namespace bit to the supervisor.
    SendUserNs { byte: u8 },
    /// Receive the supervisor's mapping confirmation byte.
    AwaitMapping,
    /// Set the supplementary group, then gid, then uid; gid equals uid by
    /// design.
    ApplyIdentity { uid: u32, gid: u32 },
    /// Drop the listed capabilities from the bounding and inheritable sets.
    DropCapabilities,
    /// Install the system-call filter.
    InstallFilter,
    /// `execve` the command with the configured argv and an empty
    /// environment; returning at all is an error.
    Exec,
    /// Log and exit with code 1.
    Abort,
}

/// Which events a phase can legitimately receive.
pub open spec fn child_expects(phase: ChildPhase, ev: ChildEvent) -> bool {
    match (phase, ev) {
        (ChildPhase::Entered, ChildEvent::Begin) => true,
        (ChildPhase::SettingHostname, ChildEvent::Succeeded) => true,
        (ChildPhase::PrivatizingRoot, ChildEvent::Succeeded) => true,
        (ChildPhase::BindingRoot, ChildEvent::Succeeded) => true,
        (ChildPhase::Staging, ChildEvent::Succeeded) => true,
        (ChildPhase::Pivoting, ChildEvent::Succeeded) => true,
        (ChildPhase::Unsharing, ChildEvent::UnshareOutcome { .. }) => true,
        (ChildPhase::SendingUserNs, ChildEvent::Succeeded) => true,
        (ChildPhase::AwaitingMapping, ChildEvent::MappingByte { byte }) => byte == 1,
        (ChildPhase::ApplyingIdentity, ChildEvent::Succeeded) => true,
        (ChildPhase::DroppingCaps, ChildEvent::Succeeded) => true,
        (ChildPhase::InstallingFilter, ChildEvent::Succeeded) => true,
        _ => false,
    }
}

/// The child's half of the bootstrap protocol.
#[derive(Debug)]
pub struct ChildMachine {
    pub phase: ChildPhase,
    pub config: ContainerConfig,
}

impl ChildMachine {
    /// A fresh machine holding the configuration received across the clone.
    pub fn new(config: ContainerConfig) -> (m: ChildMachine)
        ensures
            m.phase == ChildPhase::Entered,
            m.config == config,
    {
        ChildMachine { phase: ChildPhase::Entered, config }
    }

    /// Advance on the outcome of the last action and emit the next one.
    ///
    /// Any unexpected outcome — a failed operation, a mapping byte other
    /// than `0x01`, an event out of order — aborts the child.
    pub fn step(&mut self, ev: ChildEvent) -> (r: ChildAction)
        ensures
            final(self).config == old(self).config,
            // the full transition table
            old(self).phase == ChildPhase::Entered && ev == ChildEvent::Begin ==> if old(
                self,
            ).config.hostname is Some {
                final(self).phase == ChildPhase::SettingHostname && r == ChildAction::SetHostname
            } else {
                final(self).phase == ChildPhase::PrivatizingRoot && r
                    == ChildAction::PrivatizeHostRoot
            },
            old(self).phase == ChildPhase::SettingHostname && ev == ChildEvent::Succeeded ==> final(self).phase
                == ChildPhase::PrivatizingRoot && r == ChildAction::PrivatizeHostRoot,
            old(self).phase == ChildPhase::PrivatizingRoot && ev == ChildEvent::Succeeded ==> final(self).phase
                == ChildPhase::BindingRoot && r == ChildAction::BindMountNewRoot,
            old(self).phase == ChildPhase::BindingRoot && ev == ChildEvent::Succeeded ==> final(self).phase
                == ChildPhase::Staging && r == ChildAction::StageFiles,
            old(self).phase == ChildPhase::Staging && ev == ChildEvent::Succeeded ==> final(self).phase
                == ChildPhase::Pivoting && r == ChildAction::SwitchRoot,
            old(self).phase == ChildPhase::Pivoting && ev == ChildEvent::Succeeded ==> final(self).phase
                == ChildPhase::Unsharing && r == ChildAction::UnshareUser,
            ev matches ChildEvent::UnshareOutcome { created } ==> old(self).phase
                == ChildPhase::Unsharing ==> final(self).phase == ChildPhase::SendingUserNs && r == (
            ChildAction::SendUserNs { byte: if created { 1u8 } else { 0u8 } }),
            old(self).phase == ChildPhase::SendingUserNs && ev == ChildEvent::Succeeded ==> final(self).phase
                == ChildPhase::AwaitingMapping && r == ChildAction::AwaitMapping,
            old(self).phase == ChildPhase::AwaitingMapping && ev == (ChildEvent::MappingByte {
                byte: 1u8,
            }) ==> final(self).phase == ChildPhase::ApplyingIdentity && r == (ChildAction::ApplyIdentity {
                uid: old(self).config.uid,
                gid: old(self).config.uid,
            }),
            old(self).phase == ChildPhase::ApplyingIdentity && ev == ChildEvent::Succeeded ==> final(self).phase
                == ChildPhase::DroppingCaps && r == ChildAction::DropCapabilities,
            old(self).phase == ChildPhase::DroppingCaps && ev == ChildEvent::Succeeded ==> final(self).phase
                == ChildPhase::InstallingFilter && r == ChildAction::InstallFilter,
            old(self).phase == ChildPhase::InstallingFilter && ev == ChildEvent::Succeeded ==> final(self).phase
                == ChildPhase::Executing && r == ChildAction::Exec,
            !child_expects(old(self).phase, ev) ==> final(self).phase == ChildPhase::Failed && r
                == ChildAction::Abort,
            // ordering guarantees, stated on their own
            r matches ChildAction::ApplyIdentity { uid, gid } ==> old(self).phase
                == ChildPhase::AwaitingMapping && ev == (ChildEvent::MappingByte { byte: 1u8 })
                && uid == old(self).config.uid && gid == uid,
            r matches ChildAction::SendUserNs { byte } ==> old(self).phase
                == ChildPhase::Unsharing && (byte == 1 <==> ev == (ChildEvent::UnshareOutcome {
                created: true,
            })) && (byte == 0 || byte == 1),
            r == ChildAction::Exec ==> old(self).phase == ChildPhase::InstallingFilter && ev
                == ChildEvent::Succeeded,
            r == ChildAction::SwitchRoot ==> old(self).phase == ChildPhase::Staging && ev
                == ChildEvent::Succeeded,
            r == ChildAction::UnshareUser ==> old(self).phase == ChildPhase::Pivoting && ev
                == ChildEvent::Succeeded,
    {
        match (self.phase, ev) {
            (ChildPhase::Entered, ChildEvent::Begin) => {
                if self.config.hostname.is_some() {
                    self.phase = ChildPhase::SettingHostname;
                    ChildAction::SetHostname
                } else {
                    self.phase = ChildPhase::PrivatizingRoot;
                    ChildAction::PrivatizeHostRoot
                }
            },
            (ChildPhase::SettingHostname, ChildEvent::Succeeded) => {
                self.phase = ChildPhase::PrivatizingRoot;
                ChildAction::PrivatizeHostRoot
            },
            (ChildPhase::PrivatizingRoot, ChildEvent::Succeeded) => {
                self.phase = ChildPhase::BindingRoot;
                ChildAction::BindMountNewRoot
            },
            (ChildPhase::BindingRoot, ChildEvent::Succeeded) => {
                self.phase = ChildPhase::Staging;
                ChildAction::StageFiles
            },
            (ChildPhase::Staging, ChildEvent::Succeeded) => {
                self.phase = ChildPhase::Pivoting;
                ChildAction::SwitchRoot
            },
            (ChildPhase::Pivoting, ChildEvent::Succeeded) => {
                self.phase = ChildPhase::Unsharing;
                ChildAction::UnshareUser
            },
            (ChildPhase::Unsharing, ChildEvent::UnshareOutcome { created }) => {
                self.phase = ChildPhase::SendingUserNs;
                ChildAction::SendUserNs { byte: crate::protocol::encode_bool(created) }
            },
            (ChildPhase::SendingUserNs, ChildEvent::Succeeded) => {
                self.phase = ChildPhase::AwaitingMapping;
                ChildAction::AwaitMapping
            },
            (ChildPhase::AwaitingMapping, ChildEvent::MappingByte { byte }) => {
                if byte == 1 {
                    self.phase = ChildPhase::ApplyingIdentity;
                    ChildAction::ApplyIdentity { uid: self.config.uid, gid: self.config.uid }
                } else {
                    self.phase = ChildPhase::Failed;
                    ChildAction::Abort
                }
            },
            (ChildPhase::ApplyingIdentity, ChildEvent::Succeeded) => {
                self.phase = ChildPhase::DroppingCaps;
                ChildAction::DropCapabilities
            },
            (ChildPhase::DroppingCaps, ChildEvent::Succeeded) => {
                self.phase = ChildPhase::InstallingFilter;
                ChildAction::InstallFilter
            },
            (ChildPhase::InstallingFilter, ChildEvent::Succeeded) => {
                self.phase = ChildPhase::Executing;
                ChildAction::Exec
            },
            _ => {
                self.phase = ChildPhase::Failed;
                ChildAction::Abort
            },
        }
    }
}

} // verus!
