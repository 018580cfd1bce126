use symwalker::debuginfod::{request_url, DebuginfodClient, ProbeStep};
use symwalker::symbol_finder::{dsym_uuid_matches, first_found, select_first, uuid_matches, SymbolFinder};

const BUILD_ID: &str = "0123456789abcdef0123456789abcdef01234567";

#[test]
fn build_id_candidates_in_order() {
    let f = SymbolFinder::new("/bin/ls");
    assert_eq!(
        f.build_id_candidates(BUILD_ID),
        vec![
            "/usr/lib/debug/.build-id/01/23456789abcdef0123456789abcdef01234567.debug",
            "/usr/lib/debug/.build-id/01/23456789abcdef0123456789abcdef01234567",
            "/lib/debug/.build-id/01/23456789abcdef0123456789abcdef01234567.debug",
            "/lib/debug/.build-id/01/23456789abcdef0123456789abcdef01234567",
        ]
    );
}

#[test]
fn build_id_lookup_without_files_finds_nothing() {
    let f = SymbolFinder::new("/bin/ls");
    assert_eq!(f.find_by_build_id(BUILD_ID), None);
    assert_eq!(f.find_by_build_id("ab"), None);
    assert_eq!(f.find_by_build_id(""), None);
}

#[test]
fn exactly_one_present_candidate_is_returned() {
    let f = SymbolFinder::new("/bin/ls");
    let cands = f.build_id_candidates(BUILD_ID);
    assert_eq!(select_first(&cands, &vec![false, false, false, false]), None);
    assert_eq!(select_first(&cands, &vec![false, false, true, false]), Some(cands[2].clone()));
    assert_eq!(select_first(&cands, &vec![false, true, true, true]), Some(cands[1].clone()));
    assert_eq!(select_first(&cands, &vec![]), None);
}

#[test]
fn debuglink_candidates_in_order() {
    let f = SymbolFinder::new("/opt/app/bin/tool");
    assert_eq!(
        f.debuglink_candidates("tool.debug"),
        vec!["/opt/app/bin/tool.debug", "/opt/app/bin/.debug/tool.debug", "/usr/lib/debug/opt/app/bin/tool.debug"]
    );
    let f = SymbolFinder::new("rel/tool");
    assert_eq!(f.debuglink_candidates("t.dbg"), vec!["rel/t.dbg", "rel/.debug/t.dbg"]);
    let f = SymbolFinder::new("/");
    assert!(f.debuglink_candidates("t.dbg").is_empty());
}

#[test]
fn adjacent_lookups_without_files_find_nothing() {
    let f = SymbolFinder::new("/nonexistent/dir/tool");
    assert_eq!(f.find_adjacent_debug(), None);
    assert_eq!(f.find_adjacent_dsym(), None);
    assert_eq!(f.find_by_debuglink("tool.debug"), None);
}

#[test]
fn uuid_comparison_ignores_case() {
    let expected = "12345678-9ABC-DEF0-0123-456789ABCDEF";
    assert!(uuid_matches(&Some("12345678-9abc-def0-0123-456789abcdef".to_string()), expected));
    assert!(uuid_matches(&Some(expected.to_string()), expected));
    assert!(!uuid_matches(&Some("12345678-9abc-def0-0123-456789abcdee".to_string()), expected));
    assert!(!uuid_matches(&None, expected));
    assert!(!dsym_uuid_matches(b"not a mach-o file", expected));
}

#[test]
fn server_list_sources() {
    let c = DebuginfodClient::new(vec!["https://a/".to_string()], Some("https://env".to_string()));
    assert_eq!(c.servers(), &["https://a/".to_string()]);
    let c = DebuginfodClient::new(vec![], Some("  https://e1 \n https://e2\t".to_string()));
    assert_eq!(c.servers(), &["https://e1".to_string(), "https://e2".to_string()]);
    let c = DebuginfodClient::new(vec![], Some("   ".to_string()));
    assert_eq!(c.servers().len(), 4);
    assert_eq!(c.servers()[0], "https://debuginfod.elfutils.org/");
    let c = DebuginfodClient::new(vec![], None);
    assert_eq!(c.servers()[3], "https://debuginfod.debian.net/");
}

#[test]
fn request_urls_drop_trailing_slashes() {
    assert_eq!(request_url("https://s.example//", "abc"), "https://s.example/buildid/abc/debuginfo");
    assert_eq!(request_url("https://s.example", "abc"), "https://s.example/buildid/abc/debuginfo");
    let c = DebuginfodClient::new(vec!["http://x/".to_string()], None);
    assert_eq!(c.probe_url("ff00", 0), Some("http://x/buildid/ff00/debuginfo".to_string()));
    assert_eq!(c.probe_url("ff00", 1), None);
}

#[test]
fn only_second_server_answers() {
    let c = DebuginfodClient::new(
        vec!["https://one".to_string(), "https://two/".to_string(), "https://three".to_string()],
        None,
    );
    assert_eq!(
        c.check_available("abcdef", &vec![false, true]),
        (true, Some("https://two/buildid/abcdef/debuginfo".to_string()))
    );
    assert_eq!(
        c.check_available("abcdef", &vec![false, true, false]),
        (true, Some("https://two/buildid/abcdef/debuginfo".to_string()))
    );
    assert_eq!(c.check_available("abcdef", &vec![false, false, false]), (false, None));
    assert_eq!(c.check_available("abcdef", &vec![]), (false, None));
}

#[test]
fn adjacent_candidates_in_order() {
    let f = SymbolFinder::new("/opt/app/bin/tool");
    assert_eq!(f.adjacent_candidates(true), vec!["/opt/app/bin/tool.debug", "/opt/app/bin/.debug/tool"]);
    assert_eq!(f.adjacent_candidates(false), vec!["/opt/app/bin/tool.dSYM"]);
    let f = SymbolFinder::new("/");
    assert!(f.adjacent_candidates(true).is_empty());
}

#[test]
fn first_strategy_that_finds_wins() {
    let s = |x: &str| Some(x.to_string());
    assert_eq!(first_found(s("/id"), s("/link"), s("/adj")), s("/id"));
    assert_eq!(first_found(None, s("/link"), s("/adj")), s("/link"));
    assert_eq!(first_found(None, None, s("/adj")), s("/adj"));
    assert_eq!(first_found(None, None, None), None);
}

#[test]
fn requests_stop_at_first_success() {
    let c = DebuginfodClient::new(
        vec!["https://one".to_string(), "https://two/".to_string(), "https://three".to_string()],
        None,
    );
    assert_eq!(c.next_request("ab", &vec![]), ProbeStep::Ask("https://one/buildid/ab/debuginfo".to_string()));
    assert_eq!(c.next_request("ab", &vec![false]), ProbeStep::Ask("https://two/buildid/ab/debuginfo".to_string()));
    assert_eq!(c.next_request("ab", &vec![false, true]), ProbeStep::Found("https://two/buildid/ab/debuginfo".to_string()));
    assert_eq!(c.next_request("ab", &vec![false, false, false]), ProbeStep::Exhausted);
}

#[test]
fn join_with_empty_parent_adds_no_separator() {
    let f = SymbolFinder::new("tool");
    assert_eq!(f.debuglink_candidates("t.dbg"), vec!["t.dbg", ".debug/t.dbg"]);
    assert_eq!(f.debuglink_candidates("/abs/t.dbg"), vec!["/abs/t.dbg", "/abs/t.dbg"]);
}
