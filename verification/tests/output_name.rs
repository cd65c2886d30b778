use ffmpeg_ext::output_name::{default_output_name, synthesize_output_name};

#[test]
fn default_name_joins_stem_and_format_with_a_hyphen() {
    assert_eq!(default_output_name(Some("clip".to_owned()), "image2", ".png"), "clip-image2.png");
}

#[test]
fn default_name_without_stem_is_format_then_suffix() {
    assert_eq!(default_output_name(None, "image2", ".png"), "image2.png");
}

#[test]
fn default_name_keeps_empty_pieces() {
    assert_eq!(default_output_name(Some(String::new()), "image2", ".png"), "-image2.png");
    assert_eq!(default_output_name(Some("clip".to_owned()), "", ""), "clip-");
    assert_eq!(default_output_name(None, "", ""), "");
}

#[test]
fn synthesized_name_takes_the_stem_of_the_input_path() {
    let input = Some("/a/b/clip.mp4".to_owned());
    assert_eq!(synthesize_output_name(&input, "image2", ".png"), "clip-image2.png");
}

#[test]
fn synthesized_name_drops_only_the_last_extension() {
    let input = Some("archive.tar.gz".to_owned());
    assert_eq!(synthesize_output_name(&input, "image2", ".png"), "archive.tar-image2.png");
}

#[test]
fn synthesized_name_keeps_a_leading_dot_name_whole() {
    let input = Some("/home/u/.hidden".to_owned());
    assert_eq!(synthesize_output_name(&input, "image2", ".png"), ".hidden-image2.png");
}

#[test]
fn synthesized_name_without_input_path_is_format_then_suffix() {
    assert_eq!(synthesize_output_name(&None, "image2", ".png"), "image2.png");
}

#[test]
fn synthesized_name_for_a_path_without_stem_is_format_then_suffix() {
    for path in ["/", "", "/a/b/..", ".."] {
        let input = Some(path.to_owned());
        assert_eq!(synthesize_output_name(&input, "image2", ".png"), "image2.png");
    }
}

#[test]
fn synthesized_name_ignores_a_trailing_separator() {
    let input = Some("/a/b/clip.mp4/".to_owned());
    assert_eq!(synthesize_output_name(&input, "image2", ".png"), "clip-image2.png");
}

#[test]
fn stem_is_the_name_cut_at_its_last_dot_unless_that_dot_leads() {
    let names = [
        "clip", "clip.mp4", "clip.", ".clip", "..clip", "...", "a.b.c.d", ".a.b", "a..b", "x.y z",
        "ünï.cödé", "日本.語",
    ];
    for name in names {
        let stem = match name.rfind('.') {
            None | Some(0) => name,
            Some(at) => &name[..at],
        };
        for dir in ["", "/", "dir/", "/a/b/", "./"] {
            let input = Some(format!("{}{}", dir, name));
            assert_eq!(
                synthesize_output_name(&input, "image2", ".png"),
                format!("{}-image2.png", stem)
            );
        }
    }
}
