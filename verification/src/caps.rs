//! The capability drop step: which capabilities the child removes from its
//! bounding and inheritable sets before `execve`.
//!
//! A capability set is modelled as a 64-bit mask in which bit `n` stands for
//! the Linux capability numbered `n`, the same representation the kernel and
//! the capability library use. The drop list is fixed; dropping narrows what
//! any subsequent exec can retain even if the executable carries file
//! capabilities.

use vstd::prelude::*;

verus! {

/// The capabilities removed from the child's bounding set and cleared from
/// its inheritable set.
#[derive(Debug, Clone, Copy, PartialEq, Eq, Structural)]
pub enum DroppedCap {
    AuditControl,
    AuditRead,
    AuditWrite,
    BlockSuspend,
    DacOverride,
    DacReadSearch,
    Fsetid,
    IpcLock,
    MacAdmin,
    MacOverride,
    Mknod,
    Setfcap,
    Syslog,
    SysAdmin,
    SysBoot,
    SysModule,
    SysNice,
    SysRawio,
    SysResource,
    SysTime,
    WakeAlarm,
}

/// The Linux number of each dropped capability.
pub open spec fn cap_number(c: DroppedCap) -> u8 {
    match c {
        DroppedCap::AuditControl => 30,
        DroppedCap::AuditRead => 37,
        DroppedCap::AuditWrite => 29,
        DroppedCap::BlockSuspend => 36,
        DroppedCap::DacOverride => 1,
        DroppedCap::DacReadSearch => 2,
        DroppedCap::Fsetid => 4,
        DroppedCap::IpcLock => 14,
        DroppedCap::MacAdmin => 33,
        DroppedCap::MacOverride => 32,
        DroppedCap::Mknod => 27,
        DroppedCap::Setfcap => 31,
        DroppedCap::Syslog => 34,
        DroppedCap::SysAdmin => 21,
        DroppedCap::SysBoot => 22,
        DroppedCap::SysModule => 16,
        DroppedCap::SysNice => 23,
        DroppedCap::SysRawio => 17,
        DroppedCap::SysResource => 24,
        DroppedCap::SysTime => 25,
        DroppedCap::WakeAlarm => 35,
    }
}

/// The Linux number of a dropped capability, for callers that talk to the
/// capability library.
pub fn cap_code(c: DroppedCap) -> (r: u8)
    ensures
        r == cap_number(c),
        r < 64,
{
    match c {
        DroppedCap::AuditControl => 30,
        DroppedCap::AuditRead => 37,
        DroppedCap::AuditWrite => 29,
        DroppedCap::BlockSuspend => 36,
        DroppedCap::DacOverride => 1,
        DroppedCap::DacReadSearch => 2,
        DroppedCap::Fsetid => 4,
        DroppedCap::IpcLock => 14,
        DroppedCap::MacAdmin => 33,
        DroppedCap::MacOverride => 32,
        DroppedCap::Mknod => 27,
        DroppedCap::Setfcap => 31,
        DroppedCap::Syslog => 34,
        DroppedCap::SysAdmin => 21,
        DroppedCap::SysBoot => 22,
        DroppedCap::SysModule => 16,
        DroppedCap::SysNice => 23,
        DroppedCap::SysRawio => 17,
        DroppedCap::SysResource => 24,
        DroppedCap::SysTime => 25,
        DroppedCap::WakeAlarm => 35,
    }
}

/// The drop list, every dropped capability once.
pub open spec fn spec_drop_list() -> Seq<DroppedCap> {
    seq![
        DroppedCap::AuditControl,
        DroppedCap::AuditRead,
        DroppedCap::AuditWrite,
        DroppedCap::BlockSuspend,
        DroppedCap::DacOverride,
        DroppedCap::DacReadSearch,
        DroppedCap::Fsetid,
        DroppedCap::IpcLock,
        DroppedCap::MacAdmin,
        DroppedCap::MacOverride,
        DroppedCap::Mknod,
        DroppedCap::Setfcap,
        DroppedCap::Syslog,
        DroppedCap::SysAdmin,
        DroppedCap::SysBoot,
        DroppedCap::SysModule,
        DroppedCap::SysNice,
        DroppedCap::SysRawio,
        DroppedCap::SysResource,
        DroppedCap::SysTime,
        DroppedCap::WakeAlarm,
    ]
}

/// The drop list as a vector, for the caller that walks it.
pub fn drop_list() -> (r: Vec<DroppedCap>)
    ensures
        r@ == spec_drop_list(),
{
    let mut r: Vec<DroppedCap> = Vec::new();
    r.push(DroppedCap::AuditControl);
    r.push(DroppedCap::AuditRead);
    r.push(DroppedCap::AuditWrite);
    r.push(DroppedCap::BlockSuspend);
    r.push(DroppedCap::DacOverride);
    r.push(DroppedCap::DacReadSearch);
    r.push(DroppedCap::Fsetid);
    r.push(DroppedCap::IpcLock);
    r.push(DroppedCap::MacAdmin);
    r.push(DroppedCap::MacOverride);
    r.push(DroppedCap::Mknod);
    r.push(DroppedCap::Setfcap);
    r.push(DroppedCap::Syslog);
    r.push(DroppedCap::SysAdmin);
    r.push(DroppedCap::SysBoot);
    r.push(DroppedCap::SysModule);
    r.push(DroppedCap::SysNice);
    r.push(DroppedCap::SysRawio);
    r.push(DroppedCap::SysResource);
    r.push(DroppedCap::SysTime);
    r.push(DroppedCap::WakeAlarm);
    proof {
        assert(r@ =~= spec_drop_list());
    }
    r
}

/// The mask holding exactly the drop list's bits.
pub const DROP_MASK: u64 = (1u64 << 1) | (1u64 << 2) | (1u64 << 4) | (1u64 << 14) | (1u64 << 16) | (
1u64 << 17) | (1u64 << 21) | (1u64 << 22) | (1u64 << 23) | (1u64 << 24) | (1u64 << 25) | (1u64
    << 27) | (1u64 << 29) | (1u64 << 30) | (1u64 << 31) | (1u64 << 32) | (1u64 << 33) | (1u64 << 34)
    | (1u64 << 35) | (1u64 << 36) | (1u64 << 37);

/// Whether a capability set holds capability number `n`.
pub open spec fn has_cap(set: u64, n: u8) -> bool {
    n < 64 && ((set >> (n as u64)) & 1) == 1
}

/// Whether `n` is the number of a listed capability.
pub open spec fn listed_number(n: u8) -> bool {
    n == 1 || n == 2 || n == 4 || n == 14 || n == 16 || n == 17 || n == 21 || n == 22 || n == 23
        || n == 24 || n == 25 || n == 27 || n == 29 || n == 30 || n == 31 || n == 32 || n == 33
        || n == 34 || n == 35 || n == 36 || n == 37
}

/// The mask holds a bit exactly where a listed capability stands.
pub proof fn lemma_drop_mask_bits()
    ensures
        forall|n: u8| #[trigger] has_cap(DROP_MASK, n) <==> listed_number(n),
{
    assert forall|n: u8| #[trigger] has_cap(DROP_MASK, n) <==> listed_number(n) by {
        assert((((1u64 << 1) | (1u64 << 2) | (1u64 << 4) | (1u64 << 14) | (1u64 << 16) | (1u64
            << 17) | (1u64 << 21) | (1u64 << 22) | (1u64 << 23) | (1u64 << 24) | (1u64 << 25) | (
        1u64 << 27) | (1u64 << 29) | (1u64 << 30) | (1u64 << 31) | (1u64 << 32) | (1u64 << 33) | (
        1u64 << 34) | (1u64 << 35) | (1u64 << 36) | (1u64 << 37)) >> (n as u64)) & 1 == 1 <==> (n
            == 1 || n == 2 || n == 4 || n == 14 || n == 16 || n == 17 || n == 21 || n == 22 || n
            == 23 || n == 24 || n == 25 || n == 27 || n == 29 || n == 30 || n == 31 || n == 32 || n
            == 33 || n == 34 || n == 35 || n == 36 || n == 37)) by (bit_vector);
    }
}

/// Every listed capability's number is a listed number below 64.
pub proof fn lemma_cap_numbers_listed()
    ensures
        forall|c: DroppedCap| listed_number(#[trigger] cap_number(c)) && cap_number(c) < 64,
{
}

/// The bounding (or inheritable) set after the drop step.
pub open spec fn spec_after_drop(set: u64) -> u64 {
    set & !DROP_MASK
}

/// Remove every listed capability from a capability set.
pub fn after_drop(set: u64) -> (r: u64)
    ensures
        r == spec_after_drop(set),
{
    set & !DROP_MASK
}

/// Whether one listed capability is present in a set and so needs dropping.
pub fn needs_drop(set: u64, c: DroppedCap) -> (r: bool)
    ensures
        r == has_cap(set, cap_number(c)),
{
    let n = cap_code(c);
    ((set >> (n as u64)) & 1) == 1
}

/// The listed capabilities present in a set: exactly those the drop step
/// must remove one by one.
pub fn caps_to_drop(set: u64) -> (r: Vec<DroppedCap>)
    ensures
        forall|c: DroppedCap| #[trigger]
            r@.contains(c) <==> spec_drop_list().contains(c) && has_cap(set, cap_number(c)),
        forall|j: int| 0 <= j < r@.len() ==> has_cap(set, cap_number(#[trigger] r@[j])),
{
    let list = drop_list();
    let mut r: Vec<DroppedCap> = Vec::new();
    let mut i: usize = 0;
    while i < list.len()
        invariant
            0 <= i <= list.len(),
            list@ == spec_drop_list(),
            forall|c: DroppedCap| #[trigger]
                r@.contains(c) <==> spec_drop_list().take(i as int).contains(c) && has_cap(
                    set,
                    cap_number(c),
                ),
            forall|j: int| 0 <= j < r@.len() ==> has_cap(set, cap_number(#[trigger] r@[j])),
        decreases list.len() - i,
    {
        let c = list[i];
        if needs_drop(set, c) {
            let ghost pre = r@;
            r.push(c);
            proof {
                assert(r@ =~= pre.push(c));
                assert forall|x: DroppedCap| #[trigger]
                    r@.contains(x) <==> pre.contains(x) || x == c by {
                    if r@.contains(x) {
                        let j = choose|j: int| 0 <= j < r@.len() && r@[j] == x;
                        if j < pre.len() {
                            assert(pre[j] == x);
                        }
                    }
                    if pre.contains(x) {
                        let j = choose|j: int| 0 <= j < pre.len() && pre[j] == x;
                        assert(r@[j] == x);
                    }
                    assert(r@[pre.len() as int] == c);
                }
            }
        }
        proof {
            assert forall|x: DroppedCap| #[trigger]
                spec_drop_list().take(i + 1).contains(x) <==> spec_drop_list().take(
                i as int,
            ).contains(x) || x == spec_drop_list()[i as int] by {
                if spec_drop_list().take(i + 1).contains(x) {
                    let j = choose|j: int|
                        0 <= j < i + 1 && #[trigger] spec_drop_list().take(i + 1)[j] == x;
                    if j < i {
                        assert(spec_drop_list().take(i as int)[j] == x);
                    }
                }
                if spec_drop_list().take(i as int).contains(x) {
                    let j = choose|j: int|
                        0 <= j < i && #[trigger] spec_drop_list().take(i as int)[j] == x;
                    assert(spec_drop_list().take(i + 1)[j] == x);
                }
                assert(spec_drop_list().take(i + 1)[i as int] == spec_drop_list()[i as int]);
            }
        }
        i = i + 1;
    }
    proof {
        assert(spec_drop_list().take(spec_drop_list().len() as int) =~= spec_drop_list());
    }
    r
}

/// Law: after the drop step the set retains no listed capability, gains
/// nothing, keeps every unlisted capability, and is strictly smaller than
/// the host set whenever a listed capability was present in it.
pub proof fn lemma_after_drop(set: u64)
    ensures
        forall|c: DroppedCap| !has_cap(spec_after_drop(set), #[trigger] cap_number(c)),
        forall|n: u8| #[trigger] has_cap(spec_after_drop(set), n) ==> has_cap(set, n),
        forall|n: u8|
            n < 64 && !listed_number(n) ==> (#[trigger] has_cap(spec_after_drop(set), n) == has_cap(
                set,
                n,
            )),
        (exists|c: DroppedCap| has_cap(set, #[trigger] cap_number(c))) ==> spec_after_drop(set)
            != set,
{
    lemma_drop_mask_bits();
    lemma_cap_numbers_listed();
    let m = DROP_MASK;
    assert forall|n: u8| #[trigger] has_cap(set & !m, n) implies has_cap(set, n) by {
        assert((((set & !m) >> (n as u64)) & 1 == 1) ==> ((set >> (n as u64)) & 1 == 1))
            by (bit_vector);
    }
    assert forall|n: u8| n < 64 && !listed_number(n) implies (#[trigger] has_cap(set & !m, n)
        == has_cap(set, n)) by {
        assert(!has_cap(m, n));
        assert(((m >> (n as u64)) & 1 != 1) ==> (((set & !m) >> (n as u64)) & 1 == (set >> (
        n as u64)) & 1)) by (bit_vector);
    }
    assert forall|n: u8| has_cap(m, n) implies !has_cap(set & !m, n) by {
        assert(((m >> (n as u64)) & 1 == 1) ==> (((set & !m) >> (n as u64)) & 1 != 1))
            by (bit_vector);
    }
    assert forall|c: DroppedCap| !has_cap(spec_after_drop(set), #[trigger] cap_number(c)) by {
        let n = cap_number(c);
        assert(listed_number(n));
        assert(has_cap(m, n));
        assert(!has_cap(set & !m, n));
    }
    if exists|c: DroppedCap| has_cap(set, #[trigger] cap_number(c)) {
        let c = choose|c: DroppedCap| has_cap(set, #[trigger] cap_number(c));
        let n = cap_number(c);
        assert(has_cap(m, n));
        assert(((m >> (n as u64)) & 1 == 1 && (set >> (n as u64)) & 1 == 1) ==> set & !m != set)
            by (bit_vector);
    }
}

} // verus!
