//! The system-call filter the child installs just before `execve`.
//!
//! The filter's default action lets a call through; each rule below traps
//! one syscall, either unconditionally or when a chosen argument has all the
//! bits of a mask set. Rules naming the same syscall are alternatives: any
//! one of them matching traps the call. The filter is installed after the
//! user-namespace `unshare`, deliberately — it is the filter itself that
//! forbids creating nested user namespaces from then on.
//!
//! Syscalls are identified symbolically; their per-architecture numbers are
//! the installer's concern.

use vstd::prelude::*;

verus! {

/// The set-user-id mode bit, `04000`.
pub const MODE_SUID: u64 = 2048;

/// The set-group-id mode bit, `02000`.
pub const MODE_SGID: u64 = 1024;

/// The flag requesting a new user namespace, `0x10000000`.
pub const FLAG_NEWUSER: u64 = 268435456;

/// The system calls the filter traps.
#[derive(Debug, Clone, Copy, PartialEq, Eq, Structural)]
pub enum TrappedSyscall {
    Chmod,
    Fchmod,
    Fchmodat,
    Unshare,
    CloneCall,
    Keyctl,
    AddKey,
    RequestKey,
    Ptrace,
    Mbind,
    MigratePages,
    MovePages,
    SetMempolicy,
    Userfaultfd,
    PerfEventOpen,
}

/// Trap when the argument at `arg_index` has every bit of `mask` set.
#[derive(Debug, Clone, Copy, PartialEq, Eq, Structural)]
pub struct ArgMask {
    pub arg_index: u8,
    pub mask: u64,
}

/// One filter rule: trap `syscall` when `arg` matches, or always when there
/// is no argument condition.
#[derive(Debug, Clone, Copy, PartialEq, Eq, Structural)]
pub struct FilterRule {
    pub syscall: TrappedSyscall,
    pub arg: Option<ArgMask>,
}

/// Whether a rule traps a given invocation: `args[i]` is the syscall's
/// `i`-th argument.
pub open spec fn rule_traps(r: FilterRule, sys: TrappedSyscall, args: Seq<u64>) -> bool {
    &&& r.syscall == sys
    &&& match r.arg {
        Option::None => true,
        Option::Some(a) => 0 <= a.arg_index < args.len() && args[a.arg_index as int] & a.mask
            == a.mask,
    }
}

/// The full rule table:
/// `chmod` and `fchmod` trap when the mode argument carries the set-uid or
/// the set-gid bit; `fchmodat` likewise on its third argument; `unshare`
/// and `clone` trap when asked for a new user namespace; and the keyring,
/// tracing and memory-policy calls trap outright.
pub open spec fn spec_trap_rules() -> Seq<FilterRule> {
    seq![
        FilterRule {
            syscall: TrappedSyscall::Chmod,
            arg: Option::Some(ArgMask { arg_index: 1, mask: MODE_SUID }),
        },
        FilterRule {
            syscall: TrappedSyscall::Chmod,
            arg: Option::Some(ArgMask { arg_index: 1, mask: MODE_SGID }),
        },
        FilterRule {
            syscall: TrappedSyscall::Fchmod,
            arg: Option::Some(ArgMask { arg_index: 1, mask: MODE_SUID }),
        },
        FilterRule {
            syscall: TrappedSyscall::Fchmod,
            arg: Option::Some(ArgMask { arg_index: 1, mask: MODE_SGID }),
        },
        FilterRule {
            syscall: TrappedSyscall::Fchmodat,
            arg: Option::Some(ArgMask { arg_index: 2, mask: MODE_SUID }),
        },
        FilterRule {
            syscall: TrappedSyscall::Fchmodat,
            arg: Option::Some(ArgMask { arg_index: 2, mask: MODE_SGID }),
        },
        FilterRule {
            syscall: TrappedSyscall::Unshare,
            arg: Option::Some(ArgMask { arg_index: 0, mask: FLAG_NEWUSER }),
        },
        FilterRule {
            syscall: TrappedSyscall::CloneCall,
            arg: Option::Some(ArgMask { arg_index: 0, mask: FLAG_NEWUSER }),
        },
        FilterRule { syscall: TrappedSyscall::Keyctl, arg: Option::None },
        FilterRule { syscall: TrappedSyscall::AddKey, arg: Option::None },
        FilterRule { syscall: TrappedSyscall::RequestKey, arg: Option::None },
        FilterRule { syscall: TrappedSyscall::Ptrace, arg: Option::None },
        FilterRule { syscall: TrappedSyscall::Mbind, arg: Option::None },
        FilterRule { syscall: TrappedSyscall::MigratePages, arg: Option::None },
        FilterRule { syscall: TrappedSyscall::MovePages, arg: Option::None },
        FilterRule { syscall: TrappedSyscall::SetMempolicy, arg: Option::None },
        FilterRule { syscall: TrappedSyscall::Userfaultfd, arg: Option::None },
        FilterRule { syscall: TrappedSyscall::PerfEventOpen, arg: Option::None },
    ]
}

/// Build the rule table for the installer.
pub fn trap_rules() -> (r: Vec<FilterRule>)
    ensures
        r@ == spec_trap_rules(),
{
    let mut r: Vec<FilterRule> = Vec::new();
    r.push(FilterRule {
        syscall: TrappedSyscall::Chmod,
        arg: Option::Some(ArgMask { arg_index: 1, mask: MODE_SUID }),
    });
    r.push(FilterRule {
        syscall: TrappedSyscall::Chmod,
        arg: Option::Some(ArgMask { arg_index: 1, mask: MODE_SGID }),
    });
    r.push(FilterRule {
        syscall: TrappedSyscall::Fchmod,
        arg: Option::Some(ArgMask { arg_index: 1, mask: MODE_SUID }),
    });
    r.push(FilterRule {
        syscall: TrappedSyscall::Fchmod,
        arg: Option::Some(ArgMask { arg_index: 1, mask: MODE_SGID }),
    });
    r.push(FilterRule {
        syscall: TrappedSyscall::Fchmodat,
        arg: Option::Some(ArgMask { arg_index: 2, mask: MODE_SUID }),
    });
    r.push(FilterRule {
        syscall: TrappedSyscall::Fchmodat,
        arg: Option::Some(ArgMask { arg_index: 2, mask: MODE_SGID }),
    });
    r.push(FilterRule {
        syscall: TrappedSyscall::Unshare,
        arg: Option::Some(ArgMask { arg_index: 0, mask: FLAG_NEWUSER }),
    });
    r.push(FilterRule {
        syscall: TrappedSyscall::CloneCall,
        arg: Option::Some(ArgMask { arg_index: 0, mask: FLAG_NEWUSER }),
    });
    r.push(FilterRule { syscall: TrappedSyscall::Keyctl, arg: Option::None });
    r.push(FilterRule { syscall: TrappedSyscall::AddKey, arg: Option::None });
    r.push(FilterRule { syscall: TrappedSyscall::RequestKey, arg: Option::None });
    r.push(FilterRule { syscall: TrappedSyscall::Ptrace, arg: Option::None });
    r.push(FilterRule { syscall: TrappedSyscall::Mbind, arg: Option::None });
    r.push(FilterRule { syscall: TrappedSyscall::MigratePages, arg: Option::None });
    r.push(FilterRule { syscall: TrappedSyscall::MovePages, arg: Option::None });
    r.push(FilterRule { syscall: TrappedSyscall::SetMempolicy, arg: Option::None });
    r.push(FilterRule { syscall: TrappedSyscall::Userfaultfd, arg: Option::None });
    r.push(FilterRule { syscall: TrappedSyscall::PerfEventOpen, arg: Option::None });
    proof {
        assert(r@ =~= spec_trap_rules());
    }
    r
}

/// What the filter does when no rule matches: allow the call.
#[derive(Debug, Clone, Copy, PartialEq, Eq, Structural)]
pub enum FilterAction {
    Allow,
    Trap,
}

/// The filter's default action.
pub fn default_action() -> (r: FilterAction)
    ensures
        r == FilterAction::Allow,
{
    FilterAction::Allow
}

/// The action taken when a rule matches.
pub fn match_action() -> (r: FilterAction)
    ensures
        r == FilterAction::Trap,
{
    FilterAction::Trap
}

/// A mode-changing call that sets the set-uid bit is trapped: the table
/// holds a rule for it, so the seccomp trap of the third end-to-end
/// scenario is forced by this table.
pub proof fn lemma_chmod_suid_trapped(args: Seq<u64>)
    requires
        args.len() >= 2,
        args[1] & MODE_SUID == MODE_SUID,
    ensures
        exists|j: int|
            0 <= j < spec_trap_rules().len() && rule_traps(
                #[trigger] spec_trap_rules()[j],
                TrappedSyscall::Chmod,
                args,
            ),
{
    assert(rule_traps(spec_trap_rules()[0], TrappedSyscall::Chmod, args));
}

} // verus!
