use ffmpeg_ext::text::join;

fn strings(items: &[&str]) -> Vec<String> {
    items.iter().map(|s| s.to_string()).collect()
}

#[test]
fn join_of_nothing_is_empty() {
    assert_eq!(join(&Vec::new(), "-"), "");
}

#[test]
fn join_of_one_part_is_that_part() {
    assert_eq!(join(&strings(&["image2"]), "-"), "image2");
}

#[test]
fn join_puts_the_separator_between_neighbours_only() {
    assert_eq!(join(&strings(&["a", "b", "c"]), ", "), "a, b, c");
    assert_eq!(join(&strings(&["clip", "image2"]), "-"), "clip-image2");
}

#[test]
fn join_keeps_empty_parts_and_empty_separators() {
    assert_eq!(join(&strings(&["", "", ""]), "-"), "--");
    assert_eq!(join(&strings(&["a", "b"]), ""), "ab");
}

#[test]
fn join_agrees_with_std() {
    let cases: [&[&str]; 5] =
        [&[], &["x"], &["-hide_banner", "-i", "/path/from", "/path/to"], &["", "y"], &["é", "ß", "日本"]];
    for parts in cases {
        let owned = strings(parts);
        for sep in [" ", "-", "", "::"] {
            assert_eq!(join(&owned, sep), owned.join(sep));
        }
    }
}
