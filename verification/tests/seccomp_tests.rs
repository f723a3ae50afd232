use bento::seccomp::{
    default_action, match_action, trap_rules, ArgMask, FilterAction, FilterRule, TrappedSyscall,
    FLAG_NEWUSER, MODE_SGID, MODE_SUID,
};

#[test]
fn filter_defaults_allow_and_traps_on_match() {
    assert_eq!(default_action(), FilterAction::Allow);
    assert_eq!(match_action(), FilterAction::Trap);
}

#[test]
fn mode_and_flag_constants() {
    assert_eq!(MODE_SUID, 0o4000);
    assert_eq!(MODE_SGID, 0o2000);
    assert_eq!(FLAG_NEWUSER, 0x10000000);
}

#[test]
fn chmod_traps_on_either_setid_bit() {
    let rules = trap_rules();
    assert_eq!(
        rules[0],
        FilterRule {
            syscall: TrappedSyscall::Chmod,
            arg: Some(ArgMask { arg_index: 1, mask: MODE_SUID }),
        }
    );
    assert_eq!(
        rules[1],
        FilterRule {
            syscall: TrappedSyscall::Chmod,
            arg: Some(ArgMask { arg_index: 1, mask: MODE_SGID }),
        }
    );
}

#[test]
fn fchmodat_checks_its_third_argument() {
    let rules = trap_rules();
    assert_eq!(
        rules[4],
        FilterRule {
            syscall: TrappedSyscall::Fchmodat,
            arg: Some(ArgMask { arg_index: 2, mask: MODE_SUID }),
        }
    );
    assert_eq!(
        rules[5],
        FilterRule {
            syscall: TrappedSyscall::Fchmodat,
            arg: Some(ArgMask { arg_index: 2, mask: MODE_SGID }),
        }
    );
}

#[test]
fn nested_user_namespaces_are_trapped() {
    let rules = trap_rules();
    assert_eq!(
        rules[6],
        FilterRule {
            syscall: TrappedSyscall::Unshare,
            arg: Some(ArgMask { arg_index: 0, mask: FLAG_NEWUSER }),
        }
    );
    assert_eq!(
        rules[7],
        FilterRule {
            syscall: TrappedSyscall::CloneCall,
            arg: Some(ArgMask { arg_index: 0, mask: FLAG_NEWUSER }),
        }
    );
}

#[test]
fn unconditional_traps_cover_the_fixed_list() {
    let rules = trap_rules();
    assert_eq!(rules.len(), 18);
    let unconditional: Vec<TrappedSyscall> =
        rules.iter().filter(|r| r.arg.is_none()).map(|r| r.syscall).collect();
    assert_eq!(
        unconditional,
        vec![
            TrappedSyscall::Keyctl,
            TrappedSyscall::AddKey,
            TrappedSyscall::RequestKey,
            TrappedSyscall::Ptrace,
            TrappedSyscall::Mbind,
            TrappedSyscall::MigratePages,
            TrappedSyscall::MovePages,
            TrappedSyscall::SetMempolicy,
            TrappedSyscall::Userfaultfd,
            TrappedSyscall::PerfEventOpen,
        ]
    );
}
