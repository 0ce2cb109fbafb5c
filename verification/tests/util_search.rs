use mcp_windbg_rs::protocol::{command_payload, marker_for, ready_sentinel};
use mcp_windbg_rs::text::{
    contains_substr, eq_ignore_ascii_case, join_lines, parse_u64, str_eq, trim_end_str,
    trim_str, u64_to_string,
};
use mcp_windbg_rs::utils::{
    find_cdb_executable, find_dump_files, get_local_dumps_path, has_dump_extension, FileEntry,
    PathCandidate,
};

fn candidate(path: &str, usable: bool) -> PathCandidate {
    PathCandidate { path: path.to_string(), usable }
}

#[test]
fn test_get_local_dumps_path() {
    // No candidate location is usable: there is no dump directory.
    let none: Vec<PathCandidate> = Vec::new();
    assert!(get_local_dumps_path(&none).is_none());

    // The first usable candidate wins.
    let candidates = vec![
        candidate("C:\\Windows\\Minidump", false),
        candidate("C:\\ProgramData\\Dumps", true),
        candidate("C:\\Users\\Public\\Documents\\Dumps", true),
    ];
    assert_eq!(
        get_local_dumps_path(&candidates),
        Some("C:\\ProgramData\\Dumps".to_string())
    );
}

#[test]
fn test_find_cdb_executable_custom_path() {
    // A custom path that does not exist gives nothing, with no fallback.
    let defaults = vec![candidate("C:\\cdb.exe", true)];
    let result = find_cdb_executable(Some(candidate("nonexistent.exe", false)), &defaults);
    assert!(result.is_none());

    // A usable custom path is taken as given.
    let result = find_cdb_executable(Some(candidate("D:\\tools\\cdb.exe", true)), &defaults);
    assert_eq!(result, Some("D:\\tools\\cdb.exe".to_string()));
}

#[test]
fn test_find_cdb_executable_default() {
    let defaults = vec![
        candidate("C:\\Program Files (x86)\\Windows Kits\\10\\Debuggers\\x64\\cdb.exe", false),
        candidate("C:\\Program Files (x86)\\Windows Kits\\10\\Debuggers\\x86\\cdb.exe", true),
    ];
    let result = find_cdb_executable(None, &defaults);
    if let Some(path) = result {
        assert!(path.to_lowercase().ends_with("cdb.exe"));
    } else {
        panic!("expected the usable default to be found");
    }
}

#[test]
fn test_has_dump_extension_cases() {
    assert!(has_dump_extension("test1.dmp"));
    assert!(has_dump_extension("test2.DMP"));
    assert!(has_dump_extension("archive.v2.DmP"));
    assert!(!has_dump_extension("test.txt"));
    assert!(!has_dump_extension("dmp"));
    assert!(!has_dump_extension(".dmp"));
    assert!(!has_dump_extension("file.dmpx"));
    assert!(!has_dump_extension(""));
}

#[test]
fn test_find_dump_files_with_dumps() {
    let entries = vec![
        FileEntry {
            path: "/tmp/test1.dmp".to_string(),
            name: "test1.dmp".to_string(),
            size_bytes: 12,
        },
        FileEntry {
            path: "/tmp/test2.DMP".to_string(),
            name: "test2.DMP".to_string(),
            size_bytes: 19,
        },
        FileEntry {
            path: "/tmp/test.txt".to_string(),
            name: "test.txt".to_string(),
            size_bytes: 10,
        },
    ];

    let result = find_dump_files(entries);

    // Both dump files are found, the text file is not.
    assert_eq!(result.len(), 2);

    // They come back sorted by size, descending.
    assert!(result[0].size_bytes >= result[1].size_bytes);

    let paths: Vec<&String> = result.iter().map(|f| &f.path).collect();
    assert!(paths.contains(&&"/tmp/test1.dmp".to_string()));
    assert!(paths.contains(&&"/tmp/test2.DMP".to_string()));
}

#[test]
fn test_find_dump_files_empty_directory() {
    let entries: Vec<FileEntry> = Vec::new();
    let result = find_dump_files(entries);
    assert_eq!(result.len(), 0);
}

#[test]
fn test_find_dump_files_equal_sizes_keep_order() {
    let entries = vec![
        FileEntry { path: "a.dmp".to_string(), name: "a.dmp".to_string(), size_bytes: 7 },
        FileEntry { path: "b.dmp".to_string(), name: "b.dmp".to_string(), size_bytes: 7 },
        FileEntry { path: "c.dmp".to_string(), name: "c.dmp".to_string(), size_bytes: 9 },
    ];
    let result = find_dump_files(entries);
    let paths: Vec<&str> = result.iter().map(|f| f.path.as_str()).collect();
    assert_eq!(paths, vec!["c.dmp", "a.dmp", "b.dmp"]);
}

#[test]
fn test_trim_helpers() {
    assert_eq!(trim_end_str("ntdll   \t "), "ntdll");
    assert_eq!(trim_end_str("line\r\n"), "line");
    assert_eq!(trim_end_str(""), "");
    assert_eq!(trim_end_str("   "), "");
    assert_eq!(trim_str("  kb  "), "kb");
    assert_eq!(trim_str("\t.lastevent\n"), ".lastevent");
    assert_eq!(trim_str("   "), "");
}

#[test]
fn test_trim_covers_unicode_whitespace() {
    // The same code points str::trim_end removes: no-break space,
    // ideographic space, line separator, em space.
    assert_eq!(trim_end_str("x\u{a0}"), "x");
    assert_eq!(trim_end_str("x\u{3000}\u{2028}"), "x");
    assert_eq!(trim_str("\u{2003}y\u{85}"), "y");
    assert_eq!(trim_end_str("line  \u{a0}"), "line");
    // Sanity against std's own notion.
    let samples = ["a \u{a0}\u{3000}", "b\u{2028}", "c\t\r\n", "d"];
    for s in samples {
        assert_eq!(trim_end_str(s), s.trim_end());
    }
}

#[test]
fn test_parse_u64_values() {
    assert_eq!(parse_u64("0"), Some(0));
    assert_eq!(parse_u64("45"), Some(45));
    assert_eq!(parse_u64("+42"), Some(42));
    assert_eq!(parse_u64("007"), Some(7));
    assert_eq!(parse_u64("18446744073709551615"), Some(u64::MAX));
    assert_eq!(parse_u64("18446744073709551616"), None);
    assert_eq!(parse_u64(""), None);
    assert_eq!(parse_u64("+"), None);
    assert_eq!(parse_u64("12a"), None);
    assert_eq!(parse_u64("-1"), None);
    assert_eq!(parse_u64(" 3"), None);
    // The same answers str::parse::<u64> gives.
    for s in ["0", "45", "+42", "007", "18446744073709551616", "", "+", "12a", "-1", " 3"] {
        assert_eq!(parse_u64(s), s.parse::<u64>().ok());
    }
}

#[test]
fn test_eq_ignore_ascii_case_cases() {
    assert!(eq_ignore_ascii_case("TRUE", "true"));
    assert!(eq_ignore_ascii_case("True", "tRuE"));
    assert!(eq_ignore_ascii_case("1", "1"));
    assert!(!eq_ignore_ascii_case("true", "true "));
    assert!(!eq_ignore_ascii_case("0", "1"));
    assert!(!eq_ignore_ascii_case("truex", "true"));
}

#[test]
fn test_contains_substr_cases() {
    assert!(contains_substr("prefix CDB_READY suffix", "CDB_READY"));
    assert!(contains_substr("CDB_READY", "CDB_READY"));
    assert!(!contains_substr("CDB_READ", "CDB_READY"));
    assert!(contains_substr("anything", ""));
    assert!(!contains_substr("", "x"));
}

#[test]
fn test_str_eq_cases() {
    assert!(str_eq("same", "same"));
    assert!(!str_eq("same", "sane"));
    assert!(!str_eq("short", "shorter"));
    assert!(str_eq("", ""));
}

#[test]
fn test_u64_to_string_values() {
    assert_eq!(u64_to_string(0), "0");
    assert_eq!(u64_to_string(7), "7");
    assert_eq!(u64_to_string(30), "30");
    assert_eq!(u64_to_string(12345), "12345");
    assert_eq!(u64_to_string(u64::MAX), "18446744073709551615");
}

#[test]
fn test_marker_and_payload_shape() {
    assert_eq!(ready_sentinel(), "CDB_READY");
    assert_eq!(marker_for(0), "COMMAND_COMPLETED_MARKER_0");
    assert_eq!(marker_for(12345), "COMMAND_COMPLETED_MARKER_12345");
    assert_ne!(marker_for(1), marker_for(2));
    let payload = command_payload("  kb \n", &marker_for(3));
    assert_eq!(payload, "kb\n.echo COMMAND_COMPLETED_MARKER_3\n");
}

#[test]
fn test_join_lines_shapes() {
    assert_eq!(join_lines(&Vec::new()), "");
    assert_eq!(join_lines(&vec!["one".to_string()]), "one");
    assert_eq!(
        join_lines(&vec!["one".to_string(), "".to_string(), "three".to_string()]),
        "one\n\nthree"
    );
}
