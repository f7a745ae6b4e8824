use std::path::Path;
use transduck::command::{output_path, Operation};
use transduck::path::derive_path;

fn beside(input: &str, suffix: &str, extension: &str) -> String {
    let path = Path::new(input);
    let stem = path.file_stem().unwrap_or_default().to_string_lossy();
    path.with_file_name(format!("{}{}.{}", stem, suffix, extension))
        .to_string_lossy()
        .to_string()
}

#[test]
fn output_of_a_conversion_stands_beside_the_input() {
    assert_eq!(output_path(Operation::ConvertAudio, "clip.mov", "mp3"), "clip.mp3");
    assert_eq!(output_path(Operation::ConvertVideo, "clip.mov", "mp3"), "clip.mp3");
    assert_eq!(output_path(Operation::ConvertVideo, "/home/me/clip.mov", "mkv"), "/home/me/clip.mkv");
}

#[test]
fn output_of_an_extraction_is_marked_as_audio() {
    assert_eq!(output_path(Operation::ExtractAudio, "clip.mov", "mp3"), "clip_audio.mp3");
    assert_eq!(
        output_path(Operation::ExtractAudio, "/home/me/clip.mov", "wav"),
        "/home/me/clip_audio.wav"
    );
}

#[test]
fn output_may_be_the_input_itself() {
    assert_eq!(output_path(Operation::ConvertAudio, "song.mp3", "mp3"), "song.mp3");
}

#[test]
fn stem_ends_at_the_last_point() {
    assert_eq!(derive_path("a.b.c", "", "x"), "a.b.x");
    assert_eq!(derive_path("dir.d/name", "", "x"), "dir.d/name.x");
    assert_eq!(derive_path(".hidden", "", "x"), ".hidden.x");
    assert_eq!(derive_path(".hidden.txt", "", "x"), ".hidden.x");
    assert_eq!(derive_path("name.", "", "x"), "name.x");
    assert_eq!(derive_path("..name", "", "x"), "..x");
    assert_eq!(derive_path("...", "", "x"), "...x");
}

#[test]
fn what_names_nothing_is_passed_over() {
    assert_eq!(derive_path("a/b.mov/", "", "x"), "a/b.x");
    assert_eq!(derive_path("a//b.mov", "", "x"), "a/b.x");
    assert_eq!(derive_path("a/./b.mov", "", "x"), "a/b.x");
    assert_eq!(derive_path("a/b.mov/.", "", "x"), "a/b.x");
    assert_eq!(derive_path("./b.mov", "", "x"), "./b.x");
    assert_eq!(derive_path("/b.mov", "", "x"), "/b.x");
    assert_eq!(derive_path("//b.mov", "", "x"), "/b.x");
}

#[test]
fn path_without_a_file_name_gets_one() {
    assert_eq!(derive_path("", "", "x"), ".x");
    assert_eq!(derive_path("", "_audio", "x"), "_audio.x");
    assert_eq!(derive_path("/", "", "x"), "/.x");
    assert_eq!(derive_path(".", "", "x"), "./.x");
    assert_eq!(derive_path("..", "", "x"), "../.x");
    assert_eq!(derive_path("a/..", "", "x"), "a/../.x");
    assert_eq!(derive_path("a/../", "", "x"), "a/../.x");
}

#[test]
fn derived_path_is_that_of_the_standard_library() {
    let inputs = [
        "", "/", "//", "///", ".", "..", "...", "./", "../", "./.", "./..", "/.", "/..", "/./",
        "a", "a/", "a//", "a/.", "a/./", "a/..", "a/../", "a/b", "a/b/", "a//b", "a/./b",
        "a/../b", "/a", "/a/", "/a/b", "//a//b//", "./a", "./a/b", "././a", "../a", ".a", ".a/",
        ".a.b", "a.", "a..", "a.b", "a.b.c", "a.b/", "a.b/c", "a.b/c.d", "a.b/.c", "a/.b.c",
        "..a", "..a.b", "a/..b", "clip.mov", "dir/clip.mov", "/dir/clip.mov", "/dir.d/clip",
        "dir/sub/../clip.tar.gz", "a b/c d.e f", "\u{4e2d}\u{6587}/\u{97f3}\u{4e50}.mp4",
        "\u{00e9}.\u{00e8}", "a/.", "./.a", ". /a", "a/ ", " ", "a/./.", "a/././/", "/./a",
        "/.//.", "./../", ".//", ".//a", ".///a.b", "a\\b.c", "a/b\\c.d", "-", "--.x", "~/.x",
    ];
    let suffixes = ["", "_audio", ".", "/"];
    let extensions = ["mp3", "", "tar.gz", "a/b", "."];
    for input in inputs.iter() {
        for suffix in suffixes.iter() {
            for extension in extensions.iter() {
                if suffix.starts_with('/') && Path::new(input).file_stem().is_none() {
                    continue;
                }
                assert_eq!(
                    derive_path(input, suffix, extension),
                    beside(input, suffix, extension),
                    "input {:?}, suffix {:?}, extension {:?}",
                    input,
                    suffix,
                    extension
                );
            }
        }
    }
}

#[test]
fn a_name_that_begins_with_a_separator_is_put_behind_the_directory() {
    assert_eq!(derive_path("", "/", "x"), "/.x");
    assert_eq!(derive_path("a/..", "/", "x"), "a/..//.x");
}
