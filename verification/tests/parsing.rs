use p4clean::p4::delete;
use p4clean::p4::files;
use p4clean::p4::fstat;
use p4clean::p4::ignores;
use p4clean::p4::ignores::OutputParseError;
use p4clean::p4::where_;

#[test]
fn files_parse_decodes_each_line() {
    let mut out = String::new();
    out.push_str("{\"action\":\"add\",\"change\":\"42\",\"depotFile\":\"//depot/a.txt\",\"rev\":\"1\",\"time\":\"100\",\"type\":\"text\"}\n");
    out.push_str("{\"action\":\"edit\",\"change\":\"43\",\"depotFile\":\"//depot/b.log\",\"rev\":\"2\",\"time\":\"200\",\"type\":\"binary\"}\n");
    let records = files::parse_output(out.as_bytes());
    assert_eq!(records.len(), 2);
    assert_eq!(records[0].action, "add");
    assert_eq!(records[0].change, "42");
    assert_eq!(records[0].depot_file, "//depot/a.txt");
    assert_eq!(records[0].rev, "1");
    assert_eq!(records[0].time, "100");
    assert_eq!(records[0].file_type, "text");
    assert_eq!(records[1].depot_file, "//depot/b.log");
}

#[test]
fn files_parse_drops_malformed_lines_silently() {
    let mut out = String::new();
    out.push_str("not json at all\n");
    out.push_str("{\"action\":\"add\",\"change\":\"1\",\"depotFile\":\"//d/x\",\"rev\":\"1\",\"time\":\"0\",\"type\":\"text\"}\n");
    out.push_str("{\"action\":12}\n");
    out.push_str("{}\n");
    let records = files::parse_output(out.as_bytes());
    assert_eq!(records.len(), 1);
    assert_eq!(records[0].depot_file, "//d/x");
}

#[test]
fn parse_never_yields_more_records_than_lines() {
    let out = b"\xff\xfe garbage\n{\"a\":1}\nplain\n";
    let records = files::parse_output(out);
    assert!(records.len() <= 3);
    assert_eq!(records.len(), 0);
}

#[test]
fn parse_of_arbitrary_bytes_is_total() {
    let mut bytes = Vec::new();
    for i in 0..=255u16 {
        bytes.push(i as u8);
    }
    let _ = files::parse_output(&bytes);
    let _ = where_::parse_output(&bytes);
    let _ = fstat::parse_output(&bytes);
    let _ = delete::parse_output(&bytes);
    let _ = ignores::parse_lines(&bytes);
}

#[test]
fn where_parse_decodes_mapping_records() {
    let out = "{\"clientFile\":\"//client/a.txt\",\"depotFile\":\"//depot/a.txt\",\"path\":\"/ws/a.txt\"}\n";
    let records = where_::parse_output(out.as_bytes());
    assert_eq!(records.len(), 1);
    assert_eq!(records[0].client_file, "//client/a.txt");
    assert_eq!(records[0].depot_file, "//depot/a.txt");
    assert_eq!(records[0].path, "/ws/a.txt");
}

#[test]
fn fstat_parse_decodes_client_file_records() {
    let out = "{\"clientFile\":\"/ws/a.txt\"}\n{\"other\":\"x\"}\n";
    let records = fstat::parse_output(out.as_bytes());
    assert_eq!(records.len(), 1);
    assert_eq!(records[0].client_file, "/ws/a.txt");
    assert_eq!(fstat::client_files(&records), vec!["/ws/a.txt".to_string()]);
}

#[test]
fn delete_parse_decodes_confirmation_records() {
    let out = "{\"action\":\"deleted\",\"clientFile\":\"/ws/b.log\",\"depotFile\":\"//depot/b.log\",\"type\":\"text\",\"workRev\":\"3\"}\n";
    let records = delete::parse_output(out.as_bytes());
    assert_eq!(records.len(), 1);
    assert_eq!(records[0].action, "deleted");
    assert_eq!(records[0].client_file, "/ws/b.log");
    assert_eq!(records[0].depot_file, "//depot/b.log");
    assert_eq!(records[0].file_type, "text");
    assert_eq!(records[0].work_rev, "3");
}

#[test]
fn crlf_lines_decode_like_lf_lines() {
    let out = "{\"clientFile\":\"/ws/a.txt\"}\r\n{\"clientFile\":\"/ws/b.txt\"}\r\n";
    let records = fstat::parse_output(out.as_bytes());
    assert_eq!(records.len(), 2);
    assert_eq!(records[1].client_file, "/ws/b.txt");
}

#[test]
fn free_text_path_with_spaces_splits_from_the_end() {
    let r = ignores::parse_output("a b/c.txt ignored");
    assert_eq!(r, Ok("a b/c.txt".to_string()));
}

#[test]
fn free_text_line_without_space_yields_no_record() {
    let r = ignores::parse_output("nospace");
    assert_eq!(r, Err(OutputParseError::MissingPath));
}

#[test]
fn free_text_blank_lines_yield_no_record() {
    assert_eq!(ignores::parse_output(""), Err(OutputParseError::MissingPath));
    assert_eq!(
        ignores::parse_output("   "),
        Err(OutputParseError::MissingPath)
    );
    assert_eq!(
        ignores::parse_output(" \t "),
        Err(OutputParseError::MissingPath)
    );
}

#[test]
fn ignores_parse_lines_keeps_only_wellformed_lines() {
    let out = b"/ws/a file.txt ignored\nnospace\n\n/ws/b.log ignored\n\xff\xfe\n";
    let paths = ignores::parse_lines(out);
    assert_eq!(
        paths,
        vec!["/ws/a file.txt".to_string(), "/ws/b.log".to_string()]
    );
}

#[test]
fn invalid_utf8_lines_are_dropped_not_fatal() {
    let out = b"\xc3\x28 bad\n/ws/ok.txt ignored\n";
    let paths = ignores::parse_lines(out);
    assert_eq!(paths, vec!["/ws/ok.txt".to_string()]);
}

#[test]
fn mapping_lines_decode_as_text() {
    let out = b"//depot/... //ws/...\n\xff\n//x y\n";
    let lines = p4clean::lines::decode_lines(out);
    assert_eq!(
        lines,
        vec!["//depot/... //ws/...".to_string(), "//x y".to_string()]
    );
}

#[test]
fn line_splitting_edges() {
    assert_eq!(p4clean::lines::split_lines(b""), Vec::<Vec<u8>>::new());
    assert_eq!(p4clean::lines::split_lines(b"\n"), vec![b"".to_vec()]);
    assert_eq!(
        p4clean::lines::split_lines(b"a\r\nb"),
        vec![b"a".to_vec(), b"b".to_vec()]
    );
    assert_eq!(p4clean::lines::split_lines(b"a\r"), vec![b"a\r".to_vec()]);
    assert_eq!(
        p4clean::lines::split_lines(b"a\n\nb\n"),
        vec![b"a".to_vec(), b"".to_vec(), b"b".to_vec()]
    );
}
