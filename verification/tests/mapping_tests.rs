use bento::mapping::{
    find_mapping, lookup_mapping, map_line, map_path, parse_mapping_line, setgroups_deny,
    split_lines, IdMapping, IdSelector, MapFile, MappingErrorKind,
};

#[test]
fn parse_valid_numeric_line() {
    let m = parse_mapping_line(&b"1000:100000:65536".to_vec()).unwrap();
    assert!(matches!(m.selector, IdSelector::Numeric(1000)));
    assert_eq!(m.sub_start, 100000);
    assert_eq!(m.sub_count, 65536);
}

#[test]
fn parse_name_selector_line() {
    let m = parse_mapping_line(&b"alice:100000:65536".to_vec()).unwrap();
    match m.selector {
        IdSelector::Name(n) => assert_eq!(n, b"alice".to_vec()),
        IdSelector::Numeric(_) => panic!("selector should be a name"),
    }
    assert_eq!(m.sub_start, 100000);
    assert_eq!(m.sub_count, 65536);
}

#[test]
fn parse_four_fields_rejected() {
    let e = parse_mapping_line(&b"alice:1:2:3".to_vec()).unwrap_err();
    assert_eq!(e.kind, MappingErrorKind::FieldCount { found: 4 });
    assert_eq!(e.line, b"alice:1:2:3".to_vec());
}

#[test]
fn parse_two_fields_rejected() {
    let e = parse_mapping_line(&b"alice:1".to_vec()).unwrap_err();
    assert_eq!(e.kind, MappingErrorKind::FieldCount { found: 2 });
}

#[test]
fn parse_empty_line_rejected() {
    let e = parse_mapping_line(&b"".to_vec()).unwrap_err();
    assert_eq!(e.kind, MappingErrorKind::FieldCount { found: 1 });
}

#[test]
fn parse_count_out_of_range_rejected() {
    let e = parse_mapping_line(&b"1:1:4294967296".to_vec()).unwrap_err();
    assert_eq!(e.kind, MappingErrorKind::SubCount);
}

#[test]
fn parse_start_not_numeric_rejected() {
    let e = parse_mapping_line(&b"1:x:2".to_vec()).unwrap_err();
    assert_eq!(e.kind, MappingErrorKind::SubStart);
}

#[test]
fn parse_count_max_value_accepted() {
    let m = parse_mapping_line(&b"1:0:4294967295".to_vec()).unwrap();
    assert_eq!(m.sub_start, 0);
    assert_eq!(m.sub_count, u32::MAX);
}

#[test]
fn parse_leading_zeros_numeric() {
    let m = parse_mapping_line(&b"0001000:007:08".to_vec()).unwrap();
    assert!(matches!(m.selector, IdSelector::Numeric(1000)));
    assert_eq!(m.sub_start, 7);
    assert_eq!(m.sub_count, 8);
}

#[test]
fn parse_signed_selector_reads_as_name() {
    let m = parse_mapping_line(&b"+5:1:2".to_vec()).unwrap();
    assert!(matches!(m.selector, IdSelector::Name(_)));
}

#[test]
fn find_first_numeric_match() {
    let lines = vec![b"bob:1:2".to_vec(), b"1000:5:6".to_vec(), b"1000:7:8".to_vec()];
    let m = find_mapping(&lines, 1000, &b"alice".to_vec()).unwrap().unwrap();
    assert_eq!(m.sub_start, 5);
    assert_eq!(m.sub_count, 6);
}

#[test]
fn find_name_match() {
    let lines = vec![b"bob:1:2".to_vec(), b"alice:9:10".to_vec()];
    let m = find_mapping(&lines, 1000, &b"alice".to_vec()).unwrap().unwrap();
    assert_eq!(m.sub_start, 9);
}

#[test]
fn find_absent_entry_is_not_an_error() {
    let lines = vec![b"bob:1:2".to_vec(), b"carol:3:4".to_vec()];
    let r = find_mapping(&lines, 1000, &b"alice".to_vec()).unwrap();
    assert!(r.is_none());
}

#[test]
fn find_stops_at_malformed_line() {
    let lines = vec![b"bob:1:2".to_vec(), b"broken:line".to_vec(), b"alice:9:10".to_vec()];
    let e = find_mapping(&lines, 1000, &b"alice".to_vec()).unwrap_err();
    assert_eq!(e.line, b"broken:line".to_vec());
    assert_eq!(e.kind, MappingErrorKind::FieldCount { found: 2 });
}

#[test]
fn lookup_missing_file_is_empty() {
    let r = lookup_mapping(None, 1000, &b"alice".to_vec()).unwrap();
    assert!(r.is_none());
}

#[test]
fn lookup_whole_file_with_trailing_newline() {
    let content = b"bob:1:2\nalice:100000:65536\n".to_vec();
    let m = lookup_mapping(Some(&content), 1000, &b"alice".to_vec()).unwrap().unwrap();
    assert_eq!(m.sub_start, 100000);
    assert_eq!(m.sub_count, 65536);
}

#[test]
fn split_lines_drops_final_empty_piece() {
    let lines = split_lines(b"a\nb\n");
    assert_eq!(lines, vec![b"a".to_vec(), b"b".to_vec()]);
    let lines = split_lines(b"a\nb");
    assert_eq!(lines, vec![b"a".to_vec(), b"b".to_vec()]);
    let lines = split_lines(b"");
    assert_eq!(lines, Vec::<Vec<u8>>::new());
    let lines = split_lines(b"a\n\nb\n");
    assert_eq!(lines, vec![b"a".to_vec(), b"".to_vec(), b"b".to_vec()]);
}

#[test]
fn split_lines_strips_one_carriage_return_per_line() {
    let lines = split_lines(b"a\r\nb\r\n");
    assert_eq!(lines, vec![b"a".to_vec(), b"b".to_vec()]);
    let lines = split_lines(b"a\r\r\nb");
    assert_eq!(lines, vec![b"a\r".to_vec(), b"b".to_vec()]);
    let lines = split_lines(b"a\r");
    assert_eq!(lines, vec![b"a".to_vec()]);
}

#[test]
fn lookup_accepts_crlf_line_endings() {
    let content = b"bob:1:2\r\nalice:100000:65536\r\n".to_vec();
    let m = lookup_mapping(Some(&content), 1000, &b"alice".to_vec()).unwrap().unwrap();
    assert_eq!(m.sub_start, 100000);
    assert_eq!(m.sub_count, 65536);
}

#[test]
fn map_line_exact_bytes() {
    assert_eq!(map_line(100000, 65536), b"0 100000 65536\n".to_vec());
}

#[test]
fn map_line_zero_start() {
    assert_eq!(map_line(0, 1), b"0 0 1\n".to_vec());
}

#[test]
fn map_path_exact_bytes() {
    assert_eq!(map_path(1234, MapFile::UidMap), b"/proc/1234/uid_map".to_vec());
    assert_eq!(map_path(1, MapFile::GidMap), b"/proc/1/gid_map".to_vec());
    assert_eq!(map_path(42, MapFile::Setgroups), b"/proc/42/setgroups".to_vec());
}

#[test]
fn setgroups_deny_word() {
    assert_eq!(setgroups_deny(), b"deny".to_vec());
}
