use krkr_tts::cache::{cache_lookup_path, generate_cache_filename, join_path};
use krkr_tts::text::{
    find_position_in_text_list, get_text_list_id, is_blank, str_eq, usize_to_decimal,
    voice_cache_filename,
};

#[test]
fn cache_key_is_deterministic_across_calls() {
    let a = generate_cache_filename("你好世界");
    let b = generate_cache_filename("你好世界");
    assert_eq!(a, b);
}

#[test]
fn cache_key_matches_known_digests() {
    // MD5 of the empty input and of "a" are fixed by the algorithm.
    assert_eq!(generate_cache_filename(""), "d41d8cd98f00b204e9800998ecf8427e.wav");
    assert_eq!(generate_cache_filename("a"), "0cc175b9c0f1b6a831c399e269772661.wav");
}

#[test]
fn distinct_texts_get_distinct_keys() {
    assert_ne!(generate_cache_filename("a"), generate_cache_filename("b"));
}

#[test]
fn join_path_inserts_separator_only_when_needed() {
    assert_eq!(join_path("cache", "x.wav"), "cache/x.wav");
    assert_eq!(join_path("cache/", "x.wav"), "cache/x.wav");
    // An empty base contributes nothing, as a path join would leave it.
    assert_eq!(join_path("", "x.wav"), "x.wav");
}

#[test]
fn lookup_path_is_directory_plus_key() {
    let p = cache_lookup_path("voices", "a");
    assert_eq!(p, "voices/0cc175b9c0f1b6a831c399e269772661.wav");
}

#[test]
fn text_list_id_replaces_dots() {
    assert_eq!(get_text_list_id("story.txt"), "story_txt");
    assert_eq!(get_text_list_id("/data/lists/story.txt"), "story_txt");
    assert_eq!(get_text_list_id("a.b.c"), "a_b_c");
}

#[test]
fn text_list_id_ignores_trailing_separators_and_dot_components() {
    // A trailing separator does not hide the directory name,
    // and neither does a trailing `.` component.
    assert_eq!(get_text_list_id("dir/"), "dir");
    assert_eq!(get_text_list_id("/usr/bin/"), "bin");
    assert_eq!(get_text_list_id("foo.txt/."), "foo_txt");
    assert_eq!(get_text_list_id("foo.txt/.//"), "foo_txt");
}

#[test]
fn text_list_id_without_file_name_is_unknown() {
    assert_eq!(get_text_list_id(""), "unknown");
    assert_eq!(get_text_list_id("/"), "unknown");
    assert_eq!(get_text_list_id("."), "unknown");
    assert_eq!(get_text_list_id(".."), "unknown");
    assert_eq!(get_text_list_id("a/.."), "unknown");
}

#[test]
fn voice_cache_filename_carries_list_id_and_line() {
    assert_eq!(voice_cache_filename("/data/story.txt", 7), "story_txt_7.wav");
    assert_eq!(voice_cache_filename("list.txt", 0), "list_txt_0.wav");
}

#[test]
fn decimal_rendering_is_exact() {
    assert_eq!(usize_to_decimal(0), "0");
    assert_eq!(usize_to_decimal(7), "7");
    assert_eq!(usize_to_decimal(30402), "30402");
    assert_eq!(usize_to_decimal(usize::MAX), usize::MAX.to_string());
}

#[test]
fn text_list_id_of_a_dotfile() {
    assert_eq!(get_text_list_id("dir/.hidden"), "_hidden");
}

#[test]
fn str_eq_compares_by_content() {
    assert!(str_eq("abc", "abc"));
    assert!(!str_eq("abc", "abd"));
    assert!(!str_eq("abc", "ab"));
    assert!(str_eq("", ""));
    assert!(str_eq("你好", "你好"));
    assert!(!str_eq("你好", "你们"));
}

#[test]
fn position_scan_of_empty_list_reaches_the_end() {
    let lines: Vec<String> = Vec::new();
    assert_eq!(find_position_in_text_list(&lines, "anything"), 0);
}

#[test]
fn blank_lines_are_whitespace_only() {
    assert!(is_blank(""));
    assert!(is_blank("   \t"));
    assert!(!is_blank(" a "));
}

#[test]
fn position_scan_matches_trimmed_content() {
    let lines: Vec<String> =
        vec!["  alpha  ".to_string(), "beta".to_string(), "alpha".to_string()];
    // Trimming makes the first line match; ties resolve to the first occurrence.
    assert_eq!(find_position_in_text_list(&lines, "alpha"), 0);
    assert_eq!(find_position_in_text_list(&lines, "beta"), 1);
    // A missing text scans to the end of the list.
    assert_eq!(find_position_in_text_list(&lines, "gamma"), 3);
}
