use recording::manifest::parse_segment_list;
use recording::text::{contains_text, same_text};

fn strings(items: &[&str]) -> Vec<String> {
    items.iter().map(|s| s.to_string()).collect()
}

#[test]
fn empty_manifest_lists_nothing() {
    assert_eq!(parse_segment_list(""), Vec::<String>::new());
    assert_eq!(parse_segment_list("\n\n\n"), Vec::<String>::new());
    assert_eq!(parse_segment_list("\r\n\r\n"), Vec::<String>::new());
}

#[test]
fn lines_come_out_in_manifest_order() {
    let names = parse_segment_list("recording_chunk_000.mkv\nrecording_chunk_001.mkv\nrecording_chunk_002.mkv\n");
    assert_eq!(
        names,
        strings(&["recording_chunk_000.mkv", "recording_chunk_001.mkv", "recording_chunk_002.mkv"])
    );
}

#[test]
fn last_line_without_line_feed_counts() {
    assert_eq!(parse_segment_list("a.mkv\nb.mkv"), strings(&["a.mkv", "b.mkv"]));
    assert_eq!(parse_segment_list("a.mkv"), strings(&["a.mkv"]));
}

#[test]
fn duplicate_lines_collapse() {
    assert_eq!(parse_segment_list("b.mkv\na.mkv\nb.mkv\n\na.mkv\nc.mkv\n"), strings(&["b.mkv", "a.mkv", "c.mkv"]));
}

#[test]
fn carriage_return_before_line_feed_is_dropped() {
    assert_eq!(parse_segment_list("a.mkv\r\nb.mkv\r\n"), strings(&["a.mkv", "b.mkv"]));
    assert_eq!(parse_segment_list("a.mkv\r\r\n"), strings(&["a.mkv\r"]));
}

#[test]
fn carriage_return_at_the_very_end_stays() {
    assert_eq!(parse_segment_list("a.mkv\nb.mkv\r"), strings(&["a.mkv", "b.mkv\r"]));
}

#[test]
fn names_beyond_ascii() {
    assert_eq!(parse_segment_list("żółw.mkv\r\n\nчанк.mkv\nżółw.mkv"), strings(&["żółw.mkv", "чанк.mkv"]));
}

#[test]
fn text_helpers() {
    assert!(same_text("abc", "abc"));
    assert!(!same_text("abc", "abd"));
    assert!(!same_text("abc", "ab"));
    let list = strings(&["a", "b"]);
    assert!(contains_text(&list, &"b".to_string()));
    assert!(!contains_text(&list, &"c".to_string()));
}

#[test]
fn appended_lines_only_append_names() {
    let before = "a.mkv\nb.mkv\n";
    let after = "a.mkv\nb.mkv\nc.mkv\na.mkv\nd.mkv";
    let first = parse_segment_list(before);
    let second = parse_segment_list(after);
    assert_eq!(first, strings(&["a.mkv", "b.mkv"]));
    assert_eq!(second, strings(&["a.mkv", "b.mkv", "c.mkv", "d.mkv"]));
    assert_eq!(&second[..first.len()], &first[..]);
}
