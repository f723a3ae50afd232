use bento::child::{ChildAction, ChildEvent, ChildMachine, ChildPhase};
use bento::config::ContainerConfig;
use bento::mapping::{IdMapping, IdSelector, MappingError, MappingErrorKind};
use bento::supervisor::{
    cgroup_spec, clone_namespaces, NamespaceKind, SupAction, SupEvent, SupPhase, Supervisor,
};

fn config(command_line: &[u8], hostname: Option<Vec<u8>>) -> ContainerConfig {
    ContainerConfig::new(&command_line.to_vec(), 1000, b"/tmp/c1".to_vec(), hostname, Vec::new())
        .unwrap()
}

#[test]
fn child_happy_path() {
    // The whole bootstrap of a hostname-less run: mounts, staging, pivot,
    // user namespace, handshake, identity, caps, filter, exec — in order.
    let mut m = ChildMachine::new(config(b"/bin/true", None));
    assert_eq!(m.step(ChildEvent::Begin), ChildAction::PrivatizeHostRoot);
    assert_eq!(m.step(ChildEvent::Succeeded), ChildAction::BindMountNewRoot);
    assert_eq!(m.step(ChildEvent::Succeeded), ChildAction::StageFiles);
    assert_eq!(m.step(ChildEvent::Succeeded), ChildAction::SwitchRoot);
    assert_eq!(m.step(ChildEvent::Succeeded), ChildAction::UnshareUser);
    assert_eq!(
        m.step(ChildEvent::UnshareOutcome { created: true }),
        ChildAction::SendUserNs { byte: 1 }
    );
    assert_eq!(m.step(ChildEvent::Succeeded), ChildAction::AwaitMapping);
    assert_eq!(
        m.step(ChildEvent::MappingByte { byte: 1 }),
        ChildAction::ApplyIdentity { uid: 1000, gid: 1000 }
    );
    assert_eq!(m.step(ChildEvent::Succeeded), ChildAction::DropCapabilities);
    assert_eq!(m.step(ChildEvent::Succeeded), ChildAction::InstallFilter);
    assert_eq!(m.step(ChildEvent::Succeeded), ChildAction::Exec);
    assert_eq!(m.phase, ChildPhase::Executing);
}

#[test]
fn child_sets_hostname_first_when_configured() {
    let mut m = ChildMachine::new(config(b"/bin/hostname", Some(b"sandbox".to_vec())));
    assert_eq!(m.config.hostname, Some(b"sandbox".to_vec()));
    assert_eq!(m.step(ChildEvent::Begin), ChildAction::SetHostname);
    assert_eq!(m.step(ChildEvent::Succeeded), ChildAction::PrivatizeHostRoot);
}

#[test]
fn child_reports_unshare_failure_and_goes_on() {
    // Unsupported user namespaces are an outcome, not an error: the child
    // reports byte 0 and still awaits the supervisor's release.
    let mut m = ChildMachine::new(config(b"/bin/true", None));
    m.step(ChildEvent::Begin);
    m.step(ChildEvent::Succeeded);
    m.step(ChildEvent::Succeeded);
    m.step(ChildEvent::Succeeded);
    m.step(ChildEvent::Succeeded);
    assert_eq!(
        m.step(ChildEvent::UnshareOutcome { created: false }),
        ChildAction::SendUserNs { byte: 0 }
    );
    assert_eq!(m.step(ChildEvent::Succeeded), ChildAction::AwaitMapping);
    assert_eq!(
        m.step(ChildEvent::MappingByte { byte: 1 }),
        ChildAction::ApplyIdentity { uid: 1000, gid: 1000 }
    );
}

#[test]
fn child_aborts_on_protocol_violation() {
    // Any confirmation byte other than 0x01 is fatal.
    let mut m = ChildMachine::new(config(b"/bin/true", None));
    m.step(ChildEvent::Begin);
    m.step(ChildEvent::Succeeded);
    m.step(ChildEvent::Succeeded);
    m.step(ChildEvent::Succeeded);
    m.step(ChildEvent::Succeeded);
    m.step(ChildEvent::UnshareOutcome { created: true });
    m.step(ChildEvent::Succeeded);
    assert_eq!(m.step(ChildEvent::MappingByte { byte: 0 }), ChildAction::Abort);
    assert_eq!(m.phase, ChildPhase::Failed);

    let mut m2 = ChildMachine::new(config(b"/bin/true", None));
    m2.step(ChildEvent::Begin);
    m2.step(ChildEvent::Succeeded);
    m2.step(ChildEvent::Succeeded);
    m2.step(ChildEvent::Succeeded);
    m2.step(ChildEvent::Succeeded);
    m2.step(ChildEvent::UnshareOutcome { created: true });
    m2.step(ChildEvent::Succeeded);
    assert_eq!(m2.step(ChildEvent::MappingByte { byte: 2 }), ChildAction::Abort);
}

#[test]
fn child_aborts_on_failed_operation() {
    let mut m = ChildMachine::new(config(b"/bin/true", None));
    m.step(ChildEvent::Begin);
    m.step(ChildEvent::Succeeded);
    m.step(ChildEvent::Succeeded);
    // staging fails
    assert_eq!(m.step(ChildEvent::Errored), ChildAction::Abort);
    assert_eq!(m.phase, ChildPhase::Failed);
}

fn uid_entry() -> IdMapping {
    IdMapping { selector: IdSelector::Numeric(1000), sub_start: 100000, sub_count: 65536 }
}

#[test]
fn supervisor_happy_path() {
    // Tables first, then cgroup, sockets, clone, handshake, wait, teardown.
    let mut s = Supervisor::new();
    assert_eq!(s.step(SupEvent::Begin), SupAction::LookupSubuid);
    assert_eq!(
        s.step(SupEvent::TableLookup { found: Ok(Some(uid_entry())) }),
        SupAction::LookupSubgid
    );
    assert_eq!(s.step(SupEvent::TableLookup { found: Ok(None) }), SupAction::BuildCgroup);
    assert_eq!(s.step(SupEvent::Succeeded), SupAction::CreateSocketPair);
    assert_eq!(s.step(SupEvent::Succeeded), SupAction::CloneChild);
    assert_eq!(s.step(SupEvent::Cloned { pid: 4242 }), SupAction::AwaitChildByte);
    assert_eq!(
        s.step(SupEvent::ChildByte { byte: 1 }),
        SupAction::WriteUidMap { pid: 4242, sub_start: 100000, sub_count: 65536 }
    );
    // no gid entry: straight to the release
    assert_eq!(s.step(SupEvent::Succeeded), SupAction::SendRelease { byte: 1 });
    assert_eq!(s.step(SupEvent::Succeeded), SupAction::WaitChild { pid: 4242 });
    assert_eq!(s.step(SupEvent::ChildExited { code: 0 }), SupAction::ShutdownSocket);
    assert_eq!(s.step(SupEvent::Succeeded), SupAction::DetachCgroup);
    assert_eq!(s.step(SupEvent::Succeeded), SupAction::DeleteCgroup);
    assert_eq!(s.step(SupEvent::Succeeded), SupAction::Exit { code: 0 });
    assert_eq!(s.phase, SupPhase::Done);
}

#[test]
fn supervisor_writes_deny_before_gid_map() {
    let mut s = Supervisor::new();
    s.step(SupEvent::Begin);
    s.step(SupEvent::TableLookup { found: Ok(None) });
    s.step(SupEvent::TableLookup {
        found: Ok(Some(IdMapping {
            selector: IdSelector::Name(b"alice".to_vec()),
            sub_start: 200000,
            sub_count: 1000,
        })),
    });
    s.step(SupEvent::Succeeded);
    s.step(SupEvent::Succeeded);
    s.step(SupEvent::Cloned { pid: 7 });
    assert_eq!(
        s.step(SupEvent::ChildByte { byte: 1 }),
        SupAction::WriteSetgroupsDeny { pid: 7 }
    );
    assert_eq!(
        s.step(SupEvent::Succeeded),
        SupAction::WriteGidMap { pid: 7, sub_start: 200000, sub_count: 1000 }
    );
    assert_eq!(s.step(SupEvent::Succeeded), SupAction::SendRelease { byte: 1 });
}

#[test]
fn supervisor_skips_maps_without_user_namespace() {
    let mut s = Supervisor::new();
    s.step(SupEvent::Begin);
    s.step(SupEvent::TableLookup { found: Ok(Some(uid_entry())) });
    s.step(SupEvent::TableLookup { found: Ok(None) });
    s.step(SupEvent::Succeeded);
    s.step(SupEvent::Succeeded);
    s.step(SupEvent::Cloned { pid: 9 });
    // child reported no user namespace: release directly
    assert_eq!(s.step(SupEvent::ChildByte { byte: 0 }), SupAction::SendRelease { byte: 1 });
}

#[test]
fn supervisor_skips_maps_without_table_entries() {
    // The invoking user is absent from both tables: the run proceeds, the
    // map writes are skipped, the container still runs.
    let mut s = Supervisor::new();
    s.step(SupEvent::Begin);
    s.step(SupEvent::TableLookup { found: Ok(None) });
    s.step(SupEvent::TableLookup { found: Ok(None) });
    s.step(SupEvent::Succeeded);
    s.step(SupEvent::Succeeded);
    s.step(SupEvent::Cloned { pid: 11 });
    assert_eq!(s.step(SupEvent::ChildByte { byte: 1 }), SupAction::SendRelease { byte: 1 });
    assert_eq!(s.step(SupEvent::Succeeded), SupAction::WaitChild { pid: 11 });
}

#[test]
fn supervisor_fails_on_bad_table_before_any_build() {
    // A malformed table line ends the run before a cgroup or child exists.
    let mut s = Supervisor::new();
    s.step(SupEvent::Begin);
    let err = MappingError {
        line: b"a:1:2:3".to_vec(),
        kind: MappingErrorKind::FieldCount { found: 4 },
    };
    assert_eq!(s.step(SupEvent::TableLookup { found: Err(err) }), SupAction::Exit { code: 1 });
    assert_eq!(s.phase, SupPhase::Failed);
}

#[test]
fn supervisor_reports_child_failure_but_exits_zero() {
    // The child's non-zero exit is logged; the supervisor's own exit code
    // reflects orchestration, which succeeded.
    let mut s = Supervisor::new();
    s.step(SupEvent::Begin);
    s.step(SupEvent::TableLookup { found: Ok(None) });
    s.step(SupEvent::TableLookup { found: Ok(None) });
    s.step(SupEvent::Succeeded);
    s.step(SupEvent::Succeeded);
    s.step(SupEvent::Cloned { pid: 13 });
    s.step(SupEvent::ChildByte { byte: 1 });
    s.step(SupEvent::Succeeded);
    assert_eq!(s.step(SupEvent::ChildExited { code: 77 }), SupAction::ShutdownSocket);
    s.step(SupEvent::Succeeded);
    s.step(SupEvent::Succeeded);
    assert_eq!(s.step(SupEvent::Succeeded), SupAction::Exit { code: 0 });
}

#[test]
fn supervisor_logs_signaled_child_and_exits_zero() {
    // A child killed by a signal (the seccomp trap delivers one) is a
    // logged child status, not an orchestration failure.
    let mut s = Supervisor::new();
    s.step(SupEvent::Begin);
    s.step(SupEvent::TableLookup { found: Ok(None) });
    s.step(SupEvent::TableLookup { found: Ok(None) });
    s.step(SupEvent::Succeeded);
    s.step(SupEvent::Succeeded);
    s.step(SupEvent::Cloned { pid: 19 });
    s.step(SupEvent::ChildByte { byte: 1 });
    s.step(SupEvent::Succeeded);
    assert_eq!(s.step(SupEvent::ChildSignaled { signal: 31 }), SupAction::ShutdownSocket);
    assert_eq!(s.step(SupEvent::Succeeded), SupAction::DetachCgroup);
    assert_eq!(s.step(SupEvent::Succeeded), SupAction::DeleteCgroup);
    assert_eq!(s.step(SupEvent::Succeeded), SupAction::Exit { code: 0 });
    assert_eq!(s.phase, SupPhase::Done);
}

#[test]
fn supervisor_teardown_runs_to_the_end_after_bad_wait_status() {
    let mut s = Supervisor::new();
    s.step(SupEvent::Begin);
    s.step(SupEvent::TableLookup { found: Ok(None) });
    s.step(SupEvent::TableLookup { found: Ok(None) });
    s.step(SupEvent::Succeeded);
    s.step(SupEvent::Succeeded);
    s.step(SupEvent::Cloned { pid: 17 });
    s.step(SupEvent::ChildByte { byte: 0 });
    s.step(SupEvent::Succeeded);
    assert_eq!(s.step(SupEvent::ChildStatusUnknown), SupAction::ShutdownSocket);
    assert_eq!(s.step(SupEvent::Errored), SupAction::DetachCgroup);
    assert_eq!(s.step(SupEvent::Succeeded), SupAction::DeleteCgroup);
    assert_eq!(s.step(SupEvent::Succeeded), SupAction::Exit { code: 1 });
}

#[test]
fn supervisor_fails_on_build_error() {
    let mut s = Supervisor::new();
    s.step(SupEvent::Begin);
    s.step(SupEvent::TableLookup { found: Ok(None) });
    s.step(SupEvent::TableLookup { found: Ok(None) });
    assert_eq!(s.step(SupEvent::Errored), SupAction::Exit { code: 1 });
    assert_eq!(s.phase, SupPhase::Failed);
}

#[test]
fn cgroup_parameters_are_fixed() {
    let spec = cgroup_spec();
    assert_eq!(spec.name, b"bento".to_vec());
    assert_eq!(spec.kernel_memory_limit, 1024 * 1024 * 1024);
    assert_eq!(spec.memory_hard_limit, 1024 * 1024 * 1024);
    assert_eq!(spec.max_processes, 10);
    assert_eq!(spec.cpu_shares, 250);
}

#[test]
fn clone_creates_six_namespaces_but_no_user_namespace() {
    let ns = clone_namespaces();
    assert_eq!(
        ns,
        vec![
            NamespaceKind::Cgroup,
            NamespaceKind::Ipc,
            NamespaceKind::Network,
            NamespaceKind::Mount,
            NamespaceKind::Pid,
            NamespaceKind::Uts,
        ]
    );
}
