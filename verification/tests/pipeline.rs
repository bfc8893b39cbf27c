use ips_symbolicate::addresses::{format_offset, frame_offsets};
use ips_symbolicate::demangle::demangle_text;
use ips_symbolicate::images::find_image;
use ips_symbolicate::model::{Frame, IPSFile, UsedImage};
use ips_symbolicate::normalize::{norm_line_exec, normalize_output, rewrite_path_exec};
use ips_symbolicate::probe::probe_uuid_exec;
use ips_symbolicate::render::{default_noise_markers, render_frames_exec, symbolicate_frames};

fn image(uuid: &str, name: Option<&str>) -> UsedImage {
    UsedImage {
        source: String::new(),
        arch: None,
        base: 0,
        cfbundle_short_version_string: None,
        cfbundle_identifier: None,
        size: 0,
        uuid: uuid.to_string(),
        path: None,
        name: name.map(|s| s.to_string()),
        cfbundle_version: None,
    }
}

fn frame(offset: i64, symbol: Option<&str>, index: i64) -> Frame {
    Frame {
        image_offset: offset,
        symbol: symbol.map(|s| s.to_string()),
        symbol_location: None,
        image_index: index,
    }
}

#[test]
fn uuid_match_is_case_insensitive() {
    let images = vec![
        image("0000-1111", None),
        image("ABCD-ef01-2345", Some("myapp")),
    ];
    assert_eq!(find_image(&images, "abcd-EF01-2345"), Some(1));
    assert_eq!(find_image(&images, "ABCD-EF01-2345"), Some(1));
    assert_eq!(find_image(&images, "abcd-ef01-2345"), Some(1));
}

#[test]
fn uuid_match_takes_the_first_hit() {
    let images = vec![image("aa", None), image("AA", None)];
    assert_eq!(find_image(&images, "aA"), Some(0));
}

#[test]
fn unmatched_uuid_finds_nothing() {
    let images = vec![image("0000-1111", None)];
    assert_eq!(find_image(&images, "ffff-2222"), None);
}

#[test]
fn offsets_format_as_bare_lowercase_hex() {
    assert_eq!(format_offset(0), "0x0");
    assert_eq!(format_offset(0x1a2b), "0x1a2b");
    assert_eq!(format_offset(48879), "0xbeef");
    assert_eq!(format_offset(-1), "0xffffffffffffffff");
}

#[test]
fn offsets_keep_frame_order() {
    let frames = vec![frame(16, None, 0), frame(255, None, 0), frame(4096, None, 1)];
    let offsets = frame_offsets(&frames);
    assert_eq!(offsets, vec!["0x10", "0xff", "0x1000"]);
}

#[test]
fn crates_path_rewrites_to_relative() {
    assert_eq!(rewrite_path_exec("x/crates/foo/bar.rs)"), "crates/foo/bar.rs");
}

#[test]
fn other_path_rewrites_to_absolute() {
    assert_eq!(rewrite_path_exec("Users/x/proj/main.c)"), "/Users/x/proj/main.c");
}

#[test]
fn line_with_markers_normalizes() {
    let line = "my_symbol  (in MyApp) (/Users/x/proj/crates/foo/bar.rs)";
    assert_eq!(norm_line_exec(line), "crates/foo/bar.rs:\tmy_symbol\n");
}

#[test]
fn line_without_image_marker_passes_through() {
    assert_eq!(norm_line_exec("0x1234 unresolved"), "0x1234 unresolved\n");
}

#[test]
fn line_without_source_marker_passes_through() {
    assert_eq!(norm_line_exec("sym (in MyApp)"), "sym (in MyApp)\n");
}

#[test]
fn whole_output_normalizes_line_by_line() {
    let raw = "main (in MyApp) (/Users/me/src/main.c)\nplain";
    assert_eq!(normalize_output(raw), "/Users/me/src/main.c:\tmain\nplain\n");
}

#[test]
fn mangled_symbols_demangle() {
    let out = demangle_text("_ZN3foo3barE (in MyApp)");
    assert_eq!(out, "foo::bar (in MyApp)");
}

#[test]
fn noise_frames_are_never_emitted() {
    let images = vec![image("aa", Some("myapp")), image("bb", Some("libsystem"))];
    let markers = default_noise_markers();
    let frames = vec![
        frame(0, Some("__pthread_kill"), 1),
        frame(0, Some("core::panicking::panic_fmt"), 0),
        frame(0, Some("abort_handler"), 1),
        frame(0, Some("std::backtrace::capture"), 0),
        frame(0, Some("rust_begin_unwind"), 0),
        frame(0, Some("good_symbol"), 1),
    ];
    let blocks = vec![
        "b0".to_string(),
        "b1".to_string(),
        "b2".to_string(),
        "b3".to_string(),
        "b4".to_string(),
        "b5".to_string(),
    ];
    let lines = render_frames_exec(&frames, &blocks, &images, 0, &markers);
    assert_eq!(lines, vec!["libsystem\tgood_symbol"]);
}

#[test]
fn same_image_frames_render_their_block() {
    let images = vec![image("aa", Some("myapp")), image("bb", Some("libsystem"))];
    let markers = default_noise_markers();
    let frames = vec![frame(0, Some("main"), 0), frame(0, Some("thread_start"), 1)];
    let blocks = vec!["app/src/main:\tmain::run".to_string(), "ignored".to_string()];
    let lines = render_frames_exec(&frames, &blocks, &images, 0, &markers);
    assert_eq!(lines, vec!["app/src/main:\tmain::run", "libsystem\tthread_start"]);
}

#[test]
fn pairing_stops_at_the_shorter_sequence() {
    let images = vec![image("aa", Some("myapp"))];
    let markers = default_noise_markers();
    let frames = vec![frame(0, Some("main"), 0), frame(0, Some("extra"), 0)];
    let blocks = vec!["only".to_string()];
    let lines = render_frames_exec(&frames, &blocks, &images, 0, &markers);
    assert_eq!(lines, vec!["only"]);
}

#[test]
fn frame_outside_image_list_yields_nothing() {
    let images = vec![image("aa", Some("myapp"))];
    let markers = default_noise_markers();
    let frames = vec![frame(0, Some("main"), 7)];
    assert!(symbolicate_frames(&frames, "main\n", &images, 0, &markers).is_none());
}

fn end_to_end_report() -> IPSFile {
    let header = "{\"app_name\":\"MyApp\"}";
    let body = "{\"faultingThread\":0,\
        \"threads\":[{\"id\":0,\"frames\":[\
            {\"imageOffset\":16,\"symbol\":\"main\",\"imageIndex\":0},\
            {\"imageOffset\":32,\"symbol\":\"thread_start\",\"imageIndex\":1}]}],\
        \"usedImages\":[\
            {\"uuid\":\"ABCD-0001\",\"name\":\"myapp\"},\
            {\"uuid\":\"FFFF-0002\",\"name\":\"libsystem\"}]}";
    let mut bytes = Vec::new();
    bytes.extend_from_slice(header.as_bytes());
    bytes.push(b'\n');
    bytes.extend_from_slice(body.as_bytes());
    IPSFile::parse(bytes).unwrap()
}

#[test]
fn end_to_end_two_frames() {
    let file = end_to_end_report();
    let target = find_image(&file.body.used_images, "abcd-0001").unwrap();
    assert_eq!(target, 0);
    let thread = file.faulting_thread().unwrap();
    let offsets = frame_offsets(&thread.frames);
    assert_eq!(offsets, vec!["0x10", "0x20"]);
    let resolver_text = "app/src/main:\tmain::run\n\nsecond";
    let markers = default_noise_markers();
    let lines = symbolicate_frames(
        &thread.frames,
        resolver_text,
        &file.body.used_images,
        target,
        &markers,
    )
    .unwrap();
    assert_eq!(lines, vec!["app/src/main:\tmain::run", "libsystem\tthread_start"]);
}

#[test]
fn end_to_end_no_faulting_thread_prints_nothing() {
    let file = IPSFile::parse(b"{}\n{\"threads\":[{\"id\":0}]}".to_vec()).unwrap();
    assert!(file.faulting_thread().is_none());
}

#[test]
fn end_to_end_unmatched_bundle_fails_lookup() {
    let file = end_to_end_report();
    assert!(find_image(&file.body.used_images, "no-such-uuid").is_none());
}

#[test]
fn probe_output_second_token_is_the_identifier() {
    let out = "UUID: ABCD-0001 (arm64) /path/to/bundle\nsecond line";
    assert_eq!(probe_uuid_exec(out), Some("ABCD-0001".to_string()));
    assert_eq!(probe_uuid_exec(""), None);
    assert_eq!(probe_uuid_exec("one_token_only\n"), None);
}
