use bento::config::{ConfigError, ContainerConfig};

#[test]
fn command_line_splits_into_argv() {
    let c = ContainerConfig::new(
        &b"/bin/ls -l /tmp".to_vec(),
        1000,
        b"/tmp/c1".to_vec(),
        None,
        Vec::new(),
    )
    .unwrap();
    assert_eq!(c.argv, vec![b"/bin/ls".to_vec(), b"-l".to_vec(), b"/tmp".to_vec()]);
    assert_eq!(c.command, b"/bin/ls".to_vec());
    assert_eq!(c.uid, 1000);
    assert_eq!(c.mount_dir, b"/tmp/c1".to_vec());
    assert!(c.hostname.is_none());
    assert!(c.commands_to_copy.is_empty());
}

#[test]
fn argv_head_is_command() {
    let c = ContainerConfig::new(
        &b"  /bin/true  ".to_vec(),
        0,
        b"/tmp/c1".to_vec(),
        None,
        Vec::new(),
    )
    .unwrap();
    assert!(c.argv.len() >= 1);
    assert_eq!(c.argv[0], c.command);
    assert_eq!(c.argv.len(), 1);
}

#[test]
fn empty_command_rejected() {
    let e = ContainerConfig::new(&b"".to_vec(), 0, b"/tmp".to_vec(), None, Vec::new())
        .unwrap_err();
    assert_eq!(e, ConfigError::EmptyCommand);
}

#[test]
fn whitespace_only_command_rejected() {
    let e = ContainerConfig::new(&b" \t\n ".to_vec(), 0, b"/tmp".to_vec(), None, Vec::new())
        .unwrap_err();
    assert_eq!(e, ConfigError::EmptyCommand);
}

#[test]
fn nul_byte_in_argument_rejected() {
    let e = ContainerConfig::new(&b"/bin/ls a\0b".to_vec(), 0, b"/tmp".to_vec(), None, Vec::new())
        .unwrap_err();
    assert_eq!(e, ConfigError::NulInArgument);
}

#[test]
fn optional_fields_carried_through() {
    let c = ContainerConfig::new(
        &b"/bin/hostname".to_vec(),
        1000,
        b"/tmp/c2".to_vec(),
        Some(b"sandbox".to_vec()),
        vec![b"/bin/sh".to_vec()],
    )
    .unwrap();
    assert_eq!(c.hostname, Some(b"sandbox".to_vec()));
    assert_eq!(c.commands_to_copy, vec![b"/bin/sh".to_vec()]);
}
