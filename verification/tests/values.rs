use std::cell::Cell;
use std::collections::VecDeque;
use std::io::Write;
use std::rc::Rc;

use crust_build::archive::{ends_with_slash, read_entries, ArchiveEntry};
use crust_build::cache::Cache;
use crust_build::context::{labelled, Context};
use crust_build::downloads::success;
use crust_build::effect::{settle, Request, Response};
use crust_build::extraction::{extraction_plan, place};
use crust_build::failure::Failure;
use crust_build::io::{copy_command, create_symlink_at, link_command, write_bytes_in};
use crust_build::effect::Next;
use crust_build::outputs::output_dir;
use crust_build::platform::Platform;
use crust_build::remote_zips::first_entry;
use crust_build::script::{Environment, Script};
use crust_build::scripts::{create_command, exit_result, script_content, script_name, SCRIPT_MODE};
use crust_build::target::{get_supported_platform_ids, Target};
use crust_build::text::{same_text, trim, white_space};
use crust_build::variant::Variant;
use crust_build::workspace::{in_temp_dir, leave_temp_dir, prefix, scoped};

#[test]
fn trim_removes_white_space_at_both_ends_only() {
    assert_eq!(trim("  a b  "), "a b");
    assert_eq!(trim("\n\techo hello\r\n"), "echo hello");
    assert_eq!(trim("x"), "x");
    assert_eq!(trim(""), "");
    assert_eq!(trim(" \t\n "), "");
    assert_eq!(trim("\u{a0}\u{2003}caf\u{e9} au lait\u{3000}\u{85}"), "caf\u{e9} au lait");
    assert_eq!(trim("\u{200b}zero width\u{200b}"), "\u{200b}zero width\u{200b}");
}

#[test]
fn trim_agrees_with_the_standard_library() {
    let samples = [
        "",
        " ",
        "a",
        " a",
        "a ",
        "  multi\nline \n script  \n\n",
        "\u{1680}ogham\u{1680}",
        "\u{2028}line\u{2029}",
        "\u{202f}narrow\u{205f}",
        "\u{180e}mongolian\u{180e}",
        "\u{feff}bom\u{feff}",
        "\u{b}\u{c}vertical\u{1c}\u{1f}",
    ];
    for sample in samples {
        assert_eq!(trim(sample), sample.trim(), "for {:?}", sample);
    }
}

#[test]
fn white_space_agrees_with_the_standard_library_on_every_character() {
    for code in 0u32..=0x10ffff {
        if let Some(c) = char::from_u32(code) {
            assert_eq!(white_space(c), c.is_whitespace(), "for U+{:04X}", code);
        }
    }
}

#[test]
fn same_text_compares_content() {
    assert!(same_text("debug", "debug"));
    assert!(!same_text("debug", "Debug"));
    assert!(!same_text("debug", "debu"));
    assert!(same_text("", ""));
}

#[test]
fn target_ids() {
    assert_eq!(Target::Android.id(), "android");
    assert_eq!(Target::Emscripten.id(), "emscripten");
    assert_eq!(Target::Ios.id(), "ios");
    assert_eq!(Target::MacOSConsole.id(), "macos-console");
    assert_eq!(Target::MacOSDesktop.id(), "macos-desktop");
    assert_eq!(Target::Windows.id(), "windows");
}

#[test]
fn target_resolve_ignores_case() {
    assert_eq!(Target::resolve("android"), Ok(Target::Android));
    assert_eq!(Target::resolve("Emscripten"), Ok(Target::Emscripten));
    assert_eq!(Target::resolve("IOS"), Ok(Target::Ios));
    assert_eq!(Target::resolve("MacOS-Console"), Ok(Target::MacOSConsole));
    assert_eq!(Target::resolve("MACOS-DESKTOP"), Ok(Target::MacOSDesktop));
    assert_eq!(Target::resolve("windowS"), Ok(Target::Windows));
    assert_eq!(Target::resolve("macos-des\u{212a}top"), Ok(Target::MacOSDesktop));
}

#[test]
fn target_resolve_rejects_other_texts() {
    assert_eq!(Target::resolve("linux"), Err(Failure::UnknownTarget));
    assert_eq!(Target::resolve(""), Err(Failure::UnknownTarget));
    assert_eq!(Target::resolve(" android"), Err(Failure::UnknownTarget));
    assert_eq!(Target::resolve("macos"), Err(Failure::UnknownTarget));
}

#[test]
fn target_from_id_is_exact() {
    assert_eq!(Target::from_id("windows"), Ok(Target::Windows));
    assert_eq!(Target::from_id("Windows"), Err(Failure::UnknownTarget));
    for target in [
        Target::Android,
        Target::Emscripten,
        Target::Ios,
        Target::MacOSConsole,
        Target::MacOSDesktop,
        Target::Windows,
    ] {
        assert_eq!(Target::from_id(target.id()), Ok(target));
    }
}

#[test]
fn variant_names_and_flags() {
    assert_eq!(Variant::Debug.id(), "debug");
    assert_eq!(Variant::Release.id(), "release");
    assert_eq!(Variant::Debug.rust_compiler_flag(), "");
    assert_eq!(Variant::Release.rust_compiler_flag(), "--release");
}

#[test]
fn variant_resolve_ignores_case() {
    assert_eq!(Variant::resolve("debug"), Ok(Variant::Debug));
    assert_eq!(Variant::resolve("RELEASE"), Ok(Variant::Release));
    assert_eq!(Variant::resolve("Release"), Ok(Variant::Release));
    assert_eq!(Variant::resolve("fast"), Err(Failure::UnknownVariant));
    assert_eq!(Variant::from_id("Debug"), Err(Failure::UnknownVariant));
    assert_eq!(Variant::from_id("debug"), Ok(Variant::Debug));
}

#[test]
fn context_lays_out_the_directories() {
    let context = Context::new("/home/me/crust", Target::Android, Variant::Release);
    assert_eq!(context.target_home_dir, "/home/me/crust/android");
    assert_eq!(context.working_dir, "/home/me/crust/android/.rust-build");
    assert_eq!(context.rust_build_dir, "/home/me/crust/android/.rust-build/rust");
    assert_eq!(context.source_dir, "/home/me/crust/crust-main");
    assert_eq!(context.assets_dir, "/home/me/crust/crust-main/assets");
    assert_eq!(context.variant, Variant::Release);
    assert_eq!(output_dir(&context), "/home/me/crust/android/out/release");
}

#[test]
fn context_summary_lines() {
    let context = Context::new("/p", Target::Ios, Variant::Debug);
    assert_eq!(
        context.summary(),
        vec![
            "---------------------------------------------",
            "Assets dir:          \"/p/crust-main/assets\"",
            "Working dir:         \"/p/ios/.rust-build\"",
            "Rust build dir:      \"/p/ios/.rust-build/rust\"",
            "Variant:             Debug",
            "Target home dir:     \"/p/ios\"",
            "Main source dir:     \"/p/crust-main\"",
            "---------------------------------------------",
        ]
    );
    let release = Context::new("/p", Target::Ios, Variant::Release);
    assert_eq!(release.summary()[4], "Variant:             Release");
    assert_eq!(labelled("a: ", "b"), "a: b");
}

#[test]
fn script_builders_keep_what_they_do_not_set() {
    let mut environment = Environment::new();
    environment.insert("A", "1");
    let script = Script::new(" ls -l ").environment(&environment).working_dir("/work");
    assert_eq!(script.content, "ls -l");
    assert_eq!(script.working_dir, Some("/work".to_string()));
    assert_eq!(script.environment.get("A"), Some("1".to_string()));
    let moved = script.working_dir("/other");
    assert_eq!(moved.content, "ls -l");
    assert_eq!(moved.working_dir, Some("/other".to_string()));
    assert_eq!(moved.environment.get("A"), Some("1".to_string()));
    let cleared = moved.environment(&Environment::new());
    assert_eq!(cleared.environment.get("A"), None);
    assert_eq!(cleared.working_dir, Some("/other".to_string()));
}

#[test]
fn environment_keeps_the_last_value_of_a_name() {
    let mut environment = Environment::new();
    assert_eq!(environment.get("PATH"), None);
    environment.insert("PATH", "/bin");
    environment.insert("HOME", "/root");
    environment.insert("PATH", "/usr/bin");
    assert_eq!(environment.get("PATH"), Some("/usr/bin".to_string()));
    assert_eq!(environment.get("HOME"), Some("/root".to_string()));
    assert_eq!(environment.get("path"), None);
    let copy = environment.duplicate();
    assert_eq!(copy, environment);
    let pairs = environment.assignments();
    assert_eq!(
        pairs,
        &vec![
            ("HOME".to_string(), "/root".to_string()),
            ("PATH".to_string(), "/usr/bin".to_string())
        ]
    );
}

#[test]
fn exit_codes() {
    assert_eq!(exit_result(Some(0)), Ok(()));
    assert_eq!(exit_result(Some(1)), Err(Failure::NonZeroExit { code: 1 }));
    assert_eq!(exit_result(Some(-1)), Err(Failure::NonZeroExit { code: -1 }));
    assert_eq!(exit_result(Some(i32::MIN)), Err(Failure::NonZeroExit { code: i32::MIN }));
    assert_eq!(exit_result(None), Err(Failure::NoExitCode));
}

#[test]
fn script_files() {
    assert_eq!(SCRIPT_MODE, 0o755);
    assert_eq!(script_name(Platform::Posix), "script.sh");
    assert_eq!(script_name(Platform::Windows), "script.bat");
    assert_eq!(
        script_content(Platform::Posix, "echo hi"),
        "#!/usr/bin/env bash\n\nset -o errexit\nset -o pipefail\nset -o nounset\n\necho hi"
    );
    assert_eq!(script_content(Platform::Windows, "echo hi"), "echo hi");
    let file = create_command(Platform::Posix, "/tmp/crustX", "echo hi");
    assert_eq!(file.path, "/tmp/crustX/script.sh");
    assert_eq!(file.mode, Some(0o755));
    assert!(file.content.ends_with("\n\necho hi"));
    let batch = create_command(Platform::Windows, "/tmp/crustX", "echo hi");
    assert_eq!(batch.mode, None);
    assert_eq!(batch.content, "echo hi");
}

#[test]
fn platforms() {
    assert!(Platform::Posix.supports_permissions());
    assert!(!Platform::Windows.supports_permissions());
}

#[test]
fn http_statuses() {
    assert!(!success(199));
    assert!(success(200));
    assert!(success(299));
    assert!(!success(300));
    assert!(!success(0));
    assert!(!success(u16::MAX));
}

#[test]
fn responses_that_report_nothing() {
    assert_eq!(settle(Response::Done, "/p"), Ok(()));
    assert_eq!(
        settle(Response::Failed { message: "m".to_string() }, "/p"),
        Err(Failure::Io { path: "/p".to_string(), message: "m".to_string() })
    );
    assert_eq!(settle(Response::Finished { result: Ok(()) }, "/p"), Ok(()));
    assert_eq!(
        settle(Response::Finished { result: Err(Failure::EmptyArchive) }, "/p"),
        Err(Failure::EmptyArchive)
    );
    assert_eq!(settle(Response::Exited { code: Some(0) }, "/p"), Err(Failure::Unexpected));
    assert_eq!(settle(Response::Content { bytes: vec![] }, "/p"), Err(Failure::Unexpected));
}

#[test]
fn request_subjects() {
    assert_eq!(Request::Probe { path: "/a".to_string() }.subject(), "/a");
    assert_eq!(
        Request::CopyFile { source: "/s".to_string(), destination: "/d".to_string() }.subject(),
        "/s"
    );
    assert_eq!(Request::HttpGet { url: "http://x".to_string() }.subject(), "http://x");
    assert_eq!(
        Request::Run { platform: Platform::Posix, script: Script::new(" ls ") }.subject(),
        "ls"
    );
    assert_eq!(Request::AcquireWorkspace { prefix: "crust".to_string() }.subject(), "crust");
}

#[test]
fn workspace_requests() {
    assert_eq!(prefix(), "crust");
    assert_eq!(in_temp_dir(), Request::AcquireWorkspace { prefix: "crust".to_string() });
    assert_eq!(leave_temp_dir("/tmp/c1"), Request::ReleaseWorkspace { path: "/tmp/c1".to_string() });
    assert_eq!(scoped(Ok(()), "/tmp/c1", Response::Done), Ok(()));
    assert_eq!(
        scoped(Err(Failure::NoExitCode), "/tmp/c1", Response::Done),
        Err(Failure::NoExitCode)
    );
    assert_eq!(
        scoped(Err(Failure::NoExitCode), "/tmp/c1", Response::Failed { message: "m".to_string() }),
        Err(Failure::NoExitCode)
    );
    assert_eq!(
        scoped(Ok(()), "/tmp/c1", Response::Failed { message: "m".to_string() }),
        Err(Failure::Io { path: "/tmp/c1".to_string(), message: "m".to_string() })
    );
}

#[test]
fn command_lines() {
    assert_eq!(copy_command(Platform::Posix, "\"a\"", "\"b\""), "cp -R \"a\" \"b\"");
    assert_eq!(copy_command(Platform::Windows, "\"a\"", "\"b\""), "xcopy /E /H /I \"a\" \"b\"");
    assert_eq!(link_command(Platform::Posix, "\"s\"", "\"t\""), "ln -s \"s\" \"t\"");
    assert_eq!(link_command(Platform::Windows, "\"s\"", "\"t\""), "mklink /D \"t\" \"s\"");
}

#[test]
fn write_bytes_in_a_given_directory() {
    match write_bytes_in(b"abc", "f", Some("d".to_string())) {
        Next::Continue(_, request) => {
            assert_eq!(request, Request::CreateDirAll { path: "d".to_string() })
        }
        Next::Finish(_) => panic!("ended too early"),
    }
    assert_eq!(
        write_bytes_in(b"abc", "f", None),
        Next::Finish(Err(Failure::MissingParent { path: "f".to_string() }))
    );
}

#[test]
fn first_entries() {
    assert_eq!(first_entry(vec![]), None);
    assert_eq!(first_entry(vec!["b".to_string(), "a".to_string()]), Some("b".to_string()));
}

fn small_archive() -> Vec<u8> {
    let mut writer = zip::ZipWriter::new(std::io::Cursor::new(Vec::new()));
    let stored = zip::write::FileOptions::default().compression_method(zip::CompressionMethod::Stored);
    let deflated =
        zip::write::FileOptions::default().compression_method(zip::CompressionMethod::Deflated);
    writer.add_directory("lib/", stored.unix_permissions(0o755)).unwrap();
    writer.start_file("lib/a.txt", deflated.unix_permissions(0o640)).unwrap();
    writer.write_all(&[b'a'; 1000]).unwrap();
    writer.start_file("../out.txt", stored).unwrap();
    writer.write_all(b"out").unwrap();
    writer.finish().unwrap().into_inner()
}

#[test]
fn read_entries_gives_names_modes_and_content() {
    let entries = read_entries(small_archive()).unwrap();
    assert_eq!(entries.len(), 3);
    assert_eq!(entries[0].name, "lib/");
    assert_eq!(entries[0].enclosed_name, Some("lib/".to_string()));
    assert_eq!(entries[0].unix_mode.map(|m| m & 0o777), Some(0o755));
    assert_eq!(entries[0].content, Vec::<u8>::new());
    assert_eq!(entries[1].name, "lib/a.txt");
    assert_eq!(entries[1].enclosed_name, Some("lib/a.txt".to_string()));
    assert_eq!(entries[1].unix_mode.map(|m| m & 0o777), Some(0o640));
    assert_eq!(entries[1].content, vec![b'a'; 1000]);
    assert_eq!(entries[2].name, "../out.txt");
    assert_eq!(entries[2].enclosed_name, None);
    assert_eq!(entries[2].content, Vec::<u8>::new());
}

#[test]
fn read_entries_rejects_what_is_no_archive() {
    assert_eq!(read_entries(Vec::new()), Err(Failure::BadArchive));
    assert_eq!(read_entries(b"PK\x03\x04 not really".to_vec()), Err(Failure::BadArchive));
    let mut cut = small_archive();
    cut.truncate(cut.len() - 10);
    assert_eq!(read_entries(cut), Err(Failure::BadArchive));
}

#[test]
fn slashes_at_the_end() {
    assert!(ends_with_slash("a/"));
    assert!(ends_with_slash("/"));
    assert!(!ends_with_slash(""));
    assert!(!ends_with_slash("a/b"));
    assert!(!ends_with_slash("a\\"));
}

#[test]
fn extraction_plan_lists_the_requests_in_order() {
    let entries = vec![
        ArchiveEntry {
            name: "top/".to_string(),
            enclosed_name: Some("top/".to_string()),
            unix_mode: None,
            content: Vec::new(),
        },
        ArchiveEntry {
            name: "top/tool".to_string(),
            enclosed_name: Some("top/tool".to_string()),
            unix_mode: Some(0o100755),
            content: b"tool".to_vec(),
        },
        ArchiveEntry {
            name: "../../escape".to_string(),
            enclosed_name: None,
            unix_mode: Some(0o644),
            content: b"no".to_vec(),
        },
    ];
    let plan = extraction_plan(Platform::Posix, "/dest", entries);
    let expected: VecDeque<Request> = vec![
        Request::CreateDirAll { path: "/dest/top/".to_string() },
        Request::CreateDirAll { path: "/dest/top".to_string() },
        Request::WriteFile { path: "/dest/top/tool".to_string(), content: b"tool".to_vec() },
        Request::SetPermissions { path: "/dest/top/tool".to_string(), mode: 0o100755 },
    ]
    .into();
    assert_eq!(plan, expected);
}

#[test]
fn place_puts_one_entry() {
    let mut plan = VecDeque::new();
    place(&mut plan, Platform::Windows, false, "o/f".to_string(), None, Some(0o600), vec![1]);
    let expected: VecDeque<Request> =
        vec![Request::WriteFile { path: "o/f".to_string(), content: vec![1] }].into();
    assert_eq!(plan, expected);
    place(&mut plan, Platform::Posix, true, "o/d".to_string(), Some("o".to_string()), Some(0o700), vec![]);
    assert_eq!(plan.len(), 3);
    assert_eq!(plan[1], Request::CreateDirAll { path: "o/d".to_string() });
    assert_eq!(plan[2], Request::SetPermissions { path: "o/d".to_string(), mode: 0o700 });
}

#[test]
fn cache_makes_each_value_once() {
    let calls = Cell::new(0);
    let mut cache = Cache::new("meshes", |key: &str| {
        calls.set(calls.get() + 1);
        Ok::<String, String>(key.to_uppercase())
    });
    assert_eq!(cache.log_tag(), "meshes");
    assert!(!cache.holds("crate"));
    let first = cache.get("crate").unwrap();
    assert_eq!(*first, "CRATE");
    assert_eq!(calls.get(), 1);
    assert!(cache.holds("crate"));
    let second = cache.get("crate").unwrap();
    assert_eq!(calls.get(), 1);
    assert!(Rc::ptr_eq(&first, &second));
    let other = cache.get("torus").unwrap();
    assert_eq!(*other, "TORUS");
    assert_eq!(calls.get(), 2);
}

#[test]
fn cache_hands_on_the_failure_of_the_factory() {
    let calls = Cell::new(0);
    let mut cache = Cache::new("textures", |key: &str| {
        calls.set(calls.get() + 1);
        if key.ends_with(".png") {
            Ok(key.len())
        } else {
            Err(format!("cannot load {}", key))
        }
    });
    assert_eq!(cache.get("a.jpg"), Err("cannot load a.jpg".to_string()));
    assert!(!cache.holds("a.jpg"));
    assert_eq!(cache.get("a.jpg"), Err("cannot load a.jpg".to_string()));
    assert_eq!(calls.get(), 2);
    assert_eq!(cache.get("a.png").map(|v| *v), Ok(5));
    assert_eq!(cache.get("a.png").map(|v| *v), Ok(5));
    assert_eq!(calls.get(), 3);
}

#[test]
fn script_content_is_trimmed() {
    let script = Script::new("  \n echo hello \t\n");
    assert_eq!(script.content, "echo hello");
    assert_eq!(script.working_dir, None);
    assert!(script.environment.assignments().is_empty());
}

#[test]
fn supported_targets_of_each_host() {
    assert_eq!(
        get_supported_platform_ids(Platform::Windows),
        vec!["android", "emscripten", "windows"]
    );
    assert_eq!(
        get_supported_platform_ids(Platform::Posix),
        vec!["android", "emscripten", "ios", "macos-console", "macos-desktop"]
    );
}

#[test]
fn read_entries_reads_content_only_where_a_file_is_unpacked() {
    let mut writer = zip::ZipWriter::new(std::io::Cursor::new(Vec::new()));
    let stored = zip::write::FileOptions::default().compression_method(zip::CompressionMethod::Stored);
    writer.start_file("../outside.txt", stored).unwrap();
    writer.write_all(b"xxxxxxxxxxxxxxxx").unwrap();
    writer.start_file("inside.txt", stored).unwrap();
    writer.write_all(b"yyyyyyyyyyyyyyyy").unwrap();
    let good = writer.finish().unwrap().into_inner();

    let mut damaged_outside = good.clone();
    let at = damaged_outside.windows(16).position(|w| w == b"xxxxxxxxxxxxxxxx").unwrap();
    damaged_outside[at] = b'z';
    let entries = read_entries(damaged_outside).unwrap();
    assert_eq!(entries.len(), 2);
    assert_eq!(entries[0].enclosed_name, None);
    assert_eq!(entries[0].content, Vec::<u8>::new());
    assert_eq!(entries[1].content, b"yyyyyyyyyyyyyyyy".to_vec());

    let mut damaged_inside = good;
    let at = damaged_inside.windows(16).position(|w| w == b"yyyyyyyyyyyyyyyy").unwrap();
    damaged_inside[at] = b'z';
    assert_eq!(read_entries(damaged_inside), Err(Failure::BadArchive));
}

#[test]
fn create_symlink_at_a_given_place() {
    match create_symlink_at(Platform::Posix, "/s", "t", "/w", "/elsewhere/t".to_string()) {
        Next::Continue(_, request) => {
            assert_eq!(request, Request::Delete { path: "/elsewhere/t".to_string() })
        }
        Next::Finish(_) => panic!("ended too early"),
    }
}
