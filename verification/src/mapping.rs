//! The sub-id tables: parsing `/etc/subuid` and `/etc/subgid` lines,
//! locating the invoking user's entry, and formatting what the supervisor
//! writes into `/proc/<pid>/uid_map`, `gid_map` and `setgroups`.
//!
//! A table line has the form `selector:start:count`. The selector is a
//! numeric id when it reads as one, otherwise a user or group name; the two
//! remaining fields must be unsigned 32-bit decimals. Any other field count,
//! or an out-of-range number, is a malformed-input error quoting the line.
//! The same grammar serves both tables, a uid and a gid being the same kind
//! of number.

use vstd::prelude::*;

use crate::bytes::{
    bytes_eq, clone_bytes, dec_seq, dec_val, deep, is_dec_string, parse_u32, split_bytes, split_on,
    u32_to_dec, lemma_split_len,
};

verus! {

/// The first field of a table line: a numeric id, or a user/group name.
#[derive(Debug, Clone, PartialEq, Eq)]
pub enum IdSelector {
    Numeric(u32),
    Name(Vec<u8>),
}

/// One parsed sub-id table entry: `selector:sub_start:sub_count`.
#[derive(Debug, Clone)]
pub struct IdMapping {
    pub selector: IdSelector,
    pub sub_start: u32,
    pub sub_count: u32,
}

/// Why a table line was rejected.
#[derive(Debug, Clone, PartialEq, Eq)]
pub enum MappingErrorKind {
    /// The line does not have exactly three `:`-separated fields.
    FieldCount { found: usize },
    /// The second field is not an unsigned 32-bit decimal.
    SubStart,
    /// The third field is not an unsigned 32-bit decimal.
    SubCount,
}

/// A malformed table line, quoted in full.
#[derive(Debug, Clone)]
pub struct MappingError {
    pub line: Vec<u8>,
    pub kind: MappingErrorKind,
}

/// A field that reads as an unsigned 32-bit decimal number.
pub open spec fn numeric_field(f: Seq<u8>) -> bool {
    is_dec_string(f) && dec_val(f) <= u32::MAX
}

/// A well-formed table line: exactly three fields, the last two numeric.
pub open spec fn line_ok(line: Seq<u8>) -> bool {
    let fs = split_bytes(line, 58);
    &&& fs.len() == 3
    &&& numeric_field(fs[1])
    &&& numeric_field(fs[2])
}

/// The mapping that a well-formed line denotes.
pub open spec fn mapping_of_line(m: IdMapping, line: Seq<u8>) -> bool {
    let fs = split_bytes(line, 58);
    &&& if numeric_field(fs[0]) {
        m.selector matches IdSelector::Numeric(v) && v == dec_val(fs[0])
    } else {
        m.selector matches IdSelector::Name(n) && n@ == fs[0]
    }
    &&& m.sub_start == dec_val(fs[1])
    &&& m.sub_count == dec_val(fs[2])
}

/// The error that a malformed line earns.
pub open spec fn error_of_line(k: MappingErrorKind, line: Seq<u8>) -> bool {
    let fs = split_bytes(line, 58);
    if fs.len() != 3 {
        k matches MappingErrorKind::FieldCount { found } && found == fs.len()
    } else if !numeric_field(fs[1]) {
        k == MappingErrorKind::SubStart
    } else {
        k == MappingErrorKind::SubCount
    }
}

/// Parse one table line as `selector:start:count`.
///
/// Succeeds exactly on the well-formed lines; a malformed line is reported
/// with the line itself and the first failing check.
pub fn parse_mapping_line(line: &Vec<u8>) -> (r: Result<IdMapping, MappingError>)
    ensures
        r is Ok <==> line_ok(line@),
        r matches Ok(m) ==> mapping_of_line(m, line@),
        r matches Err(e) ==> e.line@ == line@ && error_of_line(e.kind, line@),
{
    let mut fields = split_on(line.as_slice(), 58);
    if fields.len() != 3 {
        return Err(MappingError {
            line: clone_bytes(line),
            kind: MappingErrorKind::FieldCount { found: fields.len() },
        });
    }
    let f0 = fields.remove(0);
    let f1 = fields.remove(0);
    let f2 = fields.remove(0);
    proof {
        assert(f0@ == split_bytes(line@, 58)[0]);
        assert(f1@ == split_bytes(line@, 58)[1]);
        assert(f2@ == split_bytes(line@, 58)[2]);
    }
    let sub_start = match parse_u32(f1.as_slice()) {
        Some(v) => v,
        None => {
            return Err(MappingError {
                line: clone_bytes(line),
                kind: MappingErrorKind::SubStart,
            });
        },
    };
    let sub_count = match parse_u32(f2.as_slice()) {
        Some(v) => v,
        None => {
            return Err(MappingError {
                line: clone_bytes(line),
                kind: MappingErrorKind::SubCount,
            });
        },
    };
    let selector = match parse_u32(f0.as_slice()) {
        Some(v) => IdSelector::Numeric(v),
        None => IdSelector::Name(f0),
    };
    Ok(IdMapping { selector, sub_start, sub_count })
}

/// Whether a well-formed line's selector names the given id or name.
pub open spec fn line_matches(line: Seq<u8>, id: u32, name: Seq<u8>) -> bool {
    let fs = split_bytes(line, 58);
    if numeric_field(fs[0]) {
        dec_val(fs[0]) == id
    } else {
        fs[0] == name
    }
}

/// Scan table lines for the first entry whose selector names the invoking
/// id or its resolved name.
///
/// The scan stops at the first malformed line; an absent match is not an
/// error but an empty result, and downstream code then skips the map write.
pub fn find_mapping(lines: &Vec<Vec<u8>>, id: u32, name: &Vec<u8>) -> (r: Result<
    Option<IdMapping>,
    MappingError,
>)
    ensures
        r matches Ok(Some(m)) ==> exists|j: int|
            0 <= j < lines@.len() && line_ok(#[trigger] deep(lines@)[j]) && line_matches(
                deep(lines@)[j],
                id,
                name@,
            ) && mapping_of_line(m, deep(lines@)[j]) && forall|k: int|
                0 <= k < j ==> line_ok(#[trigger] deep(lines@)[k]) && !line_matches(
                    deep(lines@)[k],
                    id,
                    name@,
                ),
        r matches Ok(None) ==> forall|j: int|
            0 <= j < lines@.len() ==> line_ok(#[trigger] deep(lines@)[j]) && !line_matches(
                deep(lines@)[j],
                id,
                name@,
            ),
        r matches Err(e) ==> exists|j: int|
            0 <= j < lines@.len() && !line_ok(#[trigger] deep(lines@)[j]) && e.line@ == deep(
                lines@,
            )[j] && error_of_line(e.kind, deep(lines@)[j]) && forall|k: int|
                0 <= k < j ==> line_ok(#[trigger] deep(lines@)[k]) && !line_matches(
                    deep(lines@)[k],
                    id,
                    name@,
                ),
        r is Err <==> exists|j: int|
            0 <= j < lines@.len() && !line_ok(#[trigger] deep(lines@)[j]) && forall|k: int|
                0 <= k < j ==> line_ok(#[trigger] deep(lines@)[k]) && !line_matches(
                    deep(lines@)[k],
                    id,
                    name@,
                ),
{
    let mut i: usize = 0;
    while i < lines.len()
        invariant
            0 <= i <= lines.len(),
            forall|k: int|
                0 <= k < i ==> line_ok(#[trigger] deep(lines@)[k]) && !line_matches(
                    deep(lines@)[k],
                    id,
                    name@,
                ),
        decreases lines.len() - i,
    {
        let line = &lines[i];
        proof {
            assert(deep(lines@)[i as int] == line@);
        }
        match parse_mapping_line(line) {
            Ok(m) => {
                let is_match = match &m.selector {
                    IdSelector::Numeric(v) => *v == id,
                    IdSelector::Name(n) => bytes_eq(n, name),
                };
                if is_match {
                    return Ok(Some(m));
                }
            },
            Err(e) => {
                return Err(e);
            },
        }
        i = i + 1;
    }
    Ok(None)
}

/// Law: a line assembled as `<sel>:<a>:<b>` from a colon-free selector and
/// two in-range decimal number fields is well-formed, splits into exactly
/// those three fields, and so parses to a mapping carrying exactly those
/// values; any line with a different field count is rejected, since a
/// well-formed line has exactly three.
pub proof fn lemma_parse_composed_line(sel: Seq<u8>, a: Seq<u8>, b: Seq<u8>)
    requires
        forall|i: int| 0 <= i < sel.len() ==> #[trigger] sel[i] != 58,
        numeric_field(a),
        numeric_field(b),
    ensures
        split_bytes(sel + seq![58u8] + a + seq![58u8] + b, 58) == seq![sel, a, b],
        line_ok(sel + seq![58u8] + a + seq![58u8] + b),
        forall|m: IdMapping|
            mapping_of_line(m, sel + seq![58u8] + a + seq![58u8] + b) ==> m.sub_start == dec_val(a)
                && m.sub_count == dec_val(b),
{
    let line = sel + seq![58u8] + a + seq![58u8] + b;
    assert forall|i: int| 0 <= i < a.len() implies #[trigger] a[i] != 58 by {
        assert(is_dec_string(a));
        assert(48 <= a[i] <= 57);
    }
    assert forall|i: int| 0 <= i < b.len() implies #[trigger] b[i] != 58 by {
        assert(is_dec_string(b));
        assert(48 <= b[i] <= 57);
    }
    crate::bytes::lemma_split_no_sep(sel, 58);
    crate::bytes::lemma_split_no_sep(a, 58);
    crate::bytes::lemma_split_no_sep(b, 58);
    crate::bytes::lemma_split_concat(a, b, 58);
    crate::bytes::lemma_split_concat(sel, a + seq![58u8] + b, 58);
    assert(line =~= sel + seq![58u8] + (a + seq![58u8] + b));
    assert(split_bytes(line, 58) =~~= seq![sel, a, b]);
}

/// Look an id up in a whole table file.
///
/// `content` is the file's bytes, or nothing when the file does not exist —
/// a missing table is not an error, it just means there is no entry. The
/// entry returned is the first whose selector names the id or the name.
pub fn lookup_mapping(content: Option<&Vec<u8>>, id: u32, name: &Vec<u8>) -> (r: Result<
    Option<IdMapping>,
    MappingError,
>)
    ensures
        content is None ==> r == Ok::<Option<IdMapping>, MappingError>(None),
        content matches Some(c) ==> {
            let lines = lines_of(c@);
            &&& (r matches Ok(Some(m)) ==> exists|j: int|
                0 <= j < lines.len() && line_ok(#[trigger] lines[j]) && line_matches(
                    lines[j],
                    id,
                    name@,
                ) && mapping_of_line(m, lines[j]) && forall|k: int|
                    0 <= k < j ==> line_ok(#[trigger] lines[k]) && !line_matches(
                        lines[k],
                        id,
                        name@,
                    ))
            &&& (r matches Ok(None) ==> forall|j: int|
                0 <= j < lines.len() ==> line_ok(#[trigger] lines[j]) && !line_matches(
                    lines[j],
                    id,
                    name@,
                ))
            &&& (r matches Err(e) ==> exists|j: int|
                0 <= j < lines.len() && !line_ok(#[trigger] lines[j]) && e.line@ == lines[j]
                    && error_of_line(e.kind, lines[j]) && forall|k: int|
                    0 <= k < j ==> line_ok(#[trigger] lines[k]) && !line_matches(
                        lines[k],
                        id,
                        name@,
                    ))
            &&& (r is Err <==> exists|j: int|
                0 <= j < lines.len() && !line_ok(#[trigger] lines[j]) && forall|k: int|
                    0 <= k < j ==> line_ok(#[trigger] lines[k]) && !line_matches(
                        lines[k],
                        id,
                        name@,
                    ))
        },
{
    match content {
        Option::None => Ok(None),
        Option::Some(c) => {
            let lines = split_lines(c.as_slice());
            find_mapping(&lines, id, name)
        },
    }
}

/// The single line written into a map file: `0 <sub_start> <sub_count>\n`.
/// It maps container id `0` to the host range
/// `[sub_start, sub_start + sub_count)`.
pub open spec fn map_line_bytes(sub_start: u32, sub_count: u32) -> Seq<u8> {
    seq![48u8, 32u8] + dec_seq(sub_start as nat) + seq![32u8] + dec_seq(sub_count as nat)
        + seq![10u8]
}

/// Format the one line a map file receives; it must then be written in a
/// single write, since the kernel treats a partial write as rejection.
pub fn map_line(sub_start: u32, sub_count: u32) -> (r: Vec<u8>)
    ensures
        r@ == map_line_bytes(sub_start, sub_count),
{
    let mut r: Vec<u8> = Vec::new();
    r.push(48);
    r.push(32);
    let mut start = u32_to_dec(sub_start);
    r.append(&mut start);
    r.push(32);
    let mut count = u32_to_dec(sub_count);
    r.append(&mut count);
    r.push(10);
    proof {
        assert(r@ =~= map_line_bytes(sub_start, sub_count));
    }
    r
}

/// Which of the per-process id files is addressed.
#[derive(Debug, Clone, Copy, PartialEq, Eq, Structural)]
pub enum MapFile {
    UidMap,
    GidMap,
    Setgroups,
}

/// Trailing file name for each id file.
pub open spec fn map_file_name(which: MapFile) -> Seq<u8> {
    match which {
        MapFile::UidMap => seq![117u8, 105u8, 100u8, 95u8, 109u8, 97u8, 112u8],
        MapFile::GidMap => seq![103u8, 105u8, 100u8, 95u8, 109u8, 97u8, 112u8],
        MapFile::Setgroups => seq![
            115u8,
            101u8,
            116u8,
            103u8,
            114u8,
            111u8,
            117u8,
            112u8,
            115u8,
        ],
    }
}

/// The path `/proc/<pid>/<file>` of a child's id file.
pub open spec fn map_path_bytes(pid: u32, which: MapFile) -> Seq<u8> {
    seq![47u8, 112u8, 114u8, 111u8, 99u8, 47u8] + dec_seq(pid as nat) + seq![47u8] + map_file_name(
        which,
    )
}

/// Format the path of a child's `uid_map`, `gid_map` or `setgroups` file.
pub fn map_path(pid: u32, which: MapFile) -> (r: Vec<u8>)
    ensures
        r@ == map_path_bytes(pid, which),
{
    let mut r: Vec<u8> = Vec::new();
    r.push(47);
    r.push(112);
    r.push(114);
    r.push(111);
    r.push(99);
    r.push(47);
    let mut digits = u32_to_dec(pid);
    r.append(&mut digits);
    r.push(47);
    match which {
        MapFile::UidMap => {
            r.push(117);
            r.push(105);
            r.push(100);
            r.push(95);
            r.push(109);
            r.push(97);
            r.push(112);
        },
        MapFile::GidMap => {
            r.push(103);
            r.push(105);
            r.push(100);
            r.push(95);
            r.push(109);
            r.push(97);
            r.push(112);
        },
        MapFile::Setgroups => {
            r.push(115);
            r.push(101);
            r.push(116);
            r.push(103);
            r.push(114);
            r.push(111);
            r.push(117);
            r.push(112);
            r.push(115);
        },
    }
    proof {
        assert(r@ =~= map_path_bytes(pid, which));
    }
    r
}

/// The word written into `setgroups` before a gid map: `deny`.
pub open spec fn deny_word() -> Seq<u8> {
    seq![100u8, 101u8, 110u8, 121u8]
}

/// Content of the `setgroups` write that must precede a `gid_map` write.
pub fn setgroups_deny() -> (r: Vec<u8>)
    ensures
        r@ == deny_word(),
{
    let mut r: Vec<u8> = Vec::new();
    r.push(100);
    r.push(101);
    r.push(110);
    r.push(121);
    proof {
        assert(r@ =~= deny_word());
    }
    r
}

/// A line with one trailing carriage-return byte removed, so that a table
/// written with CRLF line endings reads the same as one written with LF.
pub open spec fn strip_cr(l: Seq<u8>) -> Seq<u8> {
    if l.len() > 0 && l.last() == 13 {
        l.drop_last()
    } else {
        l
    }
}

/// Split a table file's content into lines: pieces between newline bytes,
/// each stripped of one trailing carriage return, the final piece dropped
/// when the content ends with a newline, an empty content giving no lines.
pub open spec fn lines_of(s: Seq<u8>) -> Seq<Seq<u8>> {
    let raw = if s.len() == 0 {
        Seq::<Seq<u8>>::empty()
    } else if s.last() == 10 {
        split_bytes(s, 10).drop_last()
    } else {
        split_bytes(s, 10)
    };
    raw.map_values(|l: Seq<u8>| strip_cr(l))
}

/// Split file content into lines.
pub fn split_lines(s: &[u8]) -> (r: Vec<Vec<u8>>)
    ensures
        deep(r@) == lines_of(s@),
{
    if s.len() == 0 {
        let r: Vec<Vec<u8>> = Vec::new();
        proof {
            assert(deep(r@) =~~= lines_of(s@));
        }
        return r;
    }
    let mut fields = split_on(s, 10);
    if s[s.len() - 1] == 10 {
        proof {
            lemma_split_len(s@, 10);
            assert(s@.last() == 10);
        }
        let _last = fields.pop();
        proof {
            assert(deep(fields@) =~~= split_bytes(s@, 10).drop_last());
        }
    }
    let ghost raw = deep(fields@);
    proof {
        assert(lines_of(s@) =~~= raw.map_values(|l: Seq<u8>| strip_cr(l)));
    }
    let mut out: Vec<Vec<u8>> = Vec::new();
    let mut i: usize = 0;
    while i < fields.len()
        invariant
            0 <= i <= fields.len(),
            out@.len() == i,
            raw == deep(fields@),
            forall|k: int| 0 <= k < i ==> #[trigger] deep(out@)[k] == strip_cr(raw[k]),
        decreases fields.len() - i,
    {
        let l = &fields[i];
        let ghost pre = deep(out@);
        proof {
            assert(l@ == raw[i as int]);
        }
        if l.len() > 0 && l[l.len() - 1] == 13 {
            let mut c = clone_bytes(l);
            let _cr = c.pop();
            out.push(c);
        } else {
            out.push(clone_bytes(l));
        }
        proof {
            assert(deep(out@) =~= pre.push(out@[i as int]@));
            assert(deep(out@)[i as int] == strip_cr(raw[i as int]));
        }
        i = i + 1;
    }
    proof {
        assert(deep(out@) =~~= raw.map_values(|l: Seq<u8>| strip_cr(l)));
    }
    out
}

} // verus!
