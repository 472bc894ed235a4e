use cef_sys::{aggregate_header_lines, aggregate_header_needs_writing, include_directive, is_header_name};

fn strings(v: &[&str]) -> Vec<String> {
    v.iter().map(|s| s.to_string()).collect()
}

#[test]
fn header_names_are_recognised_by_suffix() {
    assert!(is_header_name("cef_app_capi.h"));
    assert!(is_header_name(".h"));
    assert!(!is_header_name("README.md"));
    assert!(!is_header_name("cef_app_capi.hpp"));
    assert!(!is_header_name("cef_app_capi.h.bak"));
    assert!(!is_header_name("h"));
    assert!(!is_header_name(""));
}

#[test]
fn include_directive_is_relative_to_the_root() {
    assert_eq!(include_directive("cef_app_capi.h"), "#include \"include/capi/cef_app_capi.h\"");
}

#[test]
fn include_directive_uses_forward_slashes() {
    assert_eq!(include_directive("views\\cef_window_capi.h"), "#include \"include/capi/views/cef_window_capi.h\"");
}

#[test]
fn aggregate_header_has_one_line_per_header_in_order() {
    let names = strings(&["cef_browser_capi.h", "test", "cef_app_capi.h", "notes.txt", "cef_base_capi.h"]);
    let lines = aggregate_header_lines(&names);
    assert_eq!(
        lines,
        strings(&[
            "#include \"include/capi/cef_browser_capi.h\"",
            "#include \"include/capi/cef_app_capi.h\"",
            "#include \"include/capi/cef_base_capi.h\"",
        ])
    );
}

#[test]
fn aggregate_header_of_a_listing_without_headers_is_empty() {
    assert!(aggregate_header_lines(&strings(&["test", "views", "README"])).is_empty());
    assert!(aggregate_header_lines(&Vec::new()).is_empty());
}

#[test]
fn aggregate_header_keeps_duplicate_entries() {
    let lines = aggregate_header_lines(&strings(&["a.h", "a.h"]));
    assert_eq!(lines.len(), 2);
}

#[test]
fn existing_aggregate_header_is_not_rewritten() {
    assert!(!aggregate_header_needs_writing(true));
    assert!(aggregate_header_needs_writing(false));
}
