use video_reverser::paths::{is_mp4, reversed_name};
use video_reverser::VideoReverser;

#[test]
fn test_generate_output_filename() {
    let reverser = VideoReverser::new();
    let input = "test.mp4";
    let output = reverser.generate_output_filename(input);
    assert_eq!(output.as_str(), "test-rev.mp4");
}

#[test]
fn output_stays_in_the_directory_of_the_input() {
    let reverser = VideoReverser::new();
    assert_eq!(reverser.generate_output_filename("a/b/clip.mp4"), "a/b/clip-rev.mp4");
    assert_eq!(reverser.generate_output_filename("/srv/media/clip.mp4"), "/srv/media/clip-rev.mp4");
    assert_eq!(reverser.generate_output_filename("./clip.mp4"), "./clip-rev.mp4");
}

#[test]
fn only_the_last_extension_is_split_off() {
    let reverser = VideoReverser::new();
    assert_eq!(reverser.generate_output_filename("archive.tar.gz"), "archive.tar-rev.gz");
    assert_eq!(reverser.generate_output_filename("a.b/c.d.mp4"), "a.b/c.d-rev.mp4");
}

#[test]
fn extension_keeps_its_letter_case() {
    let reverser = VideoReverser::new();
    assert_eq!(reverser.generate_output_filename("Clip.MP4"), "Clip-rev.MP4");
}

#[test]
fn path_without_extension_gets_none() {
    let reverser = VideoReverser::new();
    assert_eq!(reverser.generate_output_filename("clip"), "clip-rev");
    assert_eq!(reverser.generate_output_filename("dir.d/clip"), "dir.d/clip-rev");
}

#[test]
fn leading_dot_belongs_to_the_stem() {
    let reverser = VideoReverser::new();
    assert_eq!(reverser.generate_output_filename(".hidden"), ".hidden-rev");
    assert_eq!(reverser.generate_output_filename("dir/.hidden"), "dir/.hidden-rev");
}

#[test]
fn path_without_a_file_name_gets_the_bare_suffix() {
    let reverser = VideoReverser::new();
    assert_eq!(reverser.generate_output_filename(""), "-rev");
    assert_eq!(reverser.generate_output_filename("a/.."), "a/../-rev");
}

#[test]
fn output_differs_from_input() {
    let reverser = VideoReverser::new();
    for input in ["test.mp4", "a/b/clip.mp4", "clip", ".hidden", "x.y.z"] {
        assert_ne!(reverser.generate_output_filename(input), input);
    }
}

#[test]
fn empty_extension_is_left_off_with_its_dot() {
    let reverser = VideoReverser::new();
    assert_eq!(reverser.generate_output_filename("clip."), "clip-rev");
    assert_eq!(reverser.generate_output_filename("a/clip.tar."), "a/clip.tar-rev");
}

#[test]
fn trailing_separator_is_not_part_of_the_name() {
    let reverser = VideoReverser::new();
    assert_eq!(reverser.generate_output_filename("a/clip.mp4/"), "a/clip-rev.mp4");
}

#[test]
fn reversed_name_puts_the_suffix_before_the_extension() {
    assert_eq!(reversed_name("clip", "mp4"), "clip-rev.mp4");
    assert_eq!(reversed_name("archive.tar", "gz"), "archive.tar-rev.gz");
    assert_eq!(reversed_name("clip", ""), "clip-rev");
    assert_eq!(reversed_name("", ""), "-rev");
    assert_eq!(reversed_name("", "mp4"), "-rev.mp4");
    assert_eq!(reversed_name("clip-rev", "mp4"), "clip-rev-rev.mp4");
}

#[test]
fn only_lower_case_mp4_is_mp4() {
    assert!(is_mp4(&Some(String::from("mp4"))));
    assert!(!is_mp4(&Some(String::from("MP4"))));
    assert!(!is_mp4(&Some(String::from("Mp4"))));
    assert!(!is_mp4(&Some(String::from("mp4 "))));
    assert!(!is_mp4(&Some(String::from("mp"))));
    assert!(!is_mp4(&Some(String::from("txt"))));
    assert!(!is_mp4(&Some(String::new())));
    assert!(!is_mp4(&None));
}
