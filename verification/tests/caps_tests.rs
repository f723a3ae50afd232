use bento::caps::{after_drop, cap_code, caps_to_drop, drop_list, needs_drop, DroppedCap};

#[test]
fn drop_list_has_twenty_one_distinct_caps() {
    let list = drop_list();
    assert_eq!(list.len(), 21);
    for i in 0..list.len() {
        for j in 0..i {
            assert_ne!(list[i], list[j]);
        }
    }
}

#[test]
fn cap_numbers_match_linux() {
    assert_eq!(cap_code(DroppedCap::DacOverride), 1);
    assert_eq!(cap_code(DroppedCap::DacReadSearch), 2);
    assert_eq!(cap_code(DroppedCap::Fsetid), 4);
    assert_eq!(cap_code(DroppedCap::IpcLock), 14);
    assert_eq!(cap_code(DroppedCap::SysModule), 16);
    assert_eq!(cap_code(DroppedCap::SysRawio), 17);
    assert_eq!(cap_code(DroppedCap::SysAdmin), 21);
    assert_eq!(cap_code(DroppedCap::SysBoot), 22);
    assert_eq!(cap_code(DroppedCap::SysNice), 23);
    assert_eq!(cap_code(DroppedCap::SysResource), 24);
    assert_eq!(cap_code(DroppedCap::SysTime), 25);
    assert_eq!(cap_code(DroppedCap::Mknod), 27);
    assert_eq!(cap_code(DroppedCap::AuditWrite), 29);
    assert_eq!(cap_code(DroppedCap::AuditControl), 30);
    assert_eq!(cap_code(DroppedCap::Setfcap), 31);
    assert_eq!(cap_code(DroppedCap::MacOverride), 32);
    assert_eq!(cap_code(DroppedCap::MacAdmin), 33);
    assert_eq!(cap_code(DroppedCap::Syslog), 34);
    assert_eq!(cap_code(DroppedCap::WakeAlarm), 35);
    assert_eq!(cap_code(DroppedCap::BlockSuspend), 36);
    assert_eq!(cap_code(DroppedCap::AuditRead), 37);
}

#[test]
fn drop_clears_listed_and_keeps_rest() {
    // A bounding set with every listed capability plus CHOWN (0) and
    // SETUID (7), which are not in the list.
    let mut bounding: u64 = (1 << 0) | (1 << 7);
    let list = drop_list();
    for c in &list {
        bounding |= 1u64 << cap_code(*c);
    }
    let after = after_drop(bounding);
    for c in &list {
        assert_eq!((after >> cap_code(*c)) & 1, 0);
    }
    assert_eq!(after, (1 << 0) | (1 << 7));
    // Dropping removed something, so the set strictly shrank.
    assert_ne!(after, bounding);
}

#[test]
fn caps_to_drop_picks_present_caps_only() {
    let bounding: u64 = 1 << 21;
    let to_drop = caps_to_drop(bounding);
    assert_eq!(to_drop, vec![DroppedCap::SysAdmin]);
    assert!(needs_drop(bounding, DroppedCap::SysAdmin));
    assert!(!needs_drop(bounding, DroppedCap::Mknod));
}

#[test]
fn caps_to_drop_empty_when_none_present() {
    let bounding: u64 = (1 << 0) | (1 << 7);
    assert!(caps_to_drop(bounding).is_empty());
    assert_eq!(after_drop(bounding), bounding);
}
