use cast_checks::artifacts::{select_test_executable, Artifact, SelectError};
use cast_checks::messages::{
    flag_enabled, invalid_cast_message, location_text, module_log_line, parse_failure_message,
    rewrite_log_line,
};
use cast_checks::rewrite::{contains_trait_object, should_check_cast, TypeKind, TypeTree};
use cast_checks::MaybeTryInto;
use cast_checks::MaybeTryIntoFallback;

fn leaf(kind: TypeKind) -> TypeTree {
    TypeTree { kind, children: Vec::new() }
}

fn node(kind: TypeKind, children: Vec<TypeTree>) -> TypeTree {
    TypeTree { kind, children }
}

#[test]
fn conversion_in_range_keeps_value() {
    let r = MaybeTryInto::<u64, u8>::new(255).maybe_try_into();
    assert_eq!(r, Some(Ok(255u8)));
    let r = MaybeTryInto::<i64, i8>::new(-128).maybe_try_into();
    assert_eq!(r, Some(Ok(-128i8)));
}

#[test]
fn conversion_out_of_range_fails() {
    assert!(matches!(MaybeTryInto::<u64, u8>::new(256).maybe_try_into(), Some(Err(_))));
    assert!(matches!(MaybeTryInto::<i8, u128>::new(-1).maybe_try_into(), Some(Err(_))));
    assert!(matches!(MaybeTryInto::<u32, i32>::new(u32::MAX).maybe_try_into(), Some(Err(_))));
}

#[test]
fn fallback_never_answers() {
    let r: Option<Result<u8, std::convert::Infallible>> =
        MaybeTryIntoFallback::<u8>::maybe_try_into(1.5f64);
    assert!(r.is_none());
}

#[test]
fn plain_types_are_checked_in_debug_builds() {
    let u16_type = node(TypeKind::Path, Vec::new());
    assert!(should_check_cast(true, false, &u16_type));
    assert!(should_check_cast(false, true, &u16_type));
    assert!(should_check_cast(true, true, &u16_type));
}

#[test]
fn nothing_is_checked_without_debug_or_release_feature() {
    let u16_type = node(TypeKind::Path, Vec::new());
    assert!(!should_check_cast(false, false, &u16_type));
}

#[test]
fn inferred_target_is_not_checked() {
    assert!(!should_check_cast(true, true, &leaf(TypeKind::Infer)));
    let vec_of_infer = node(TypeKind::Path, vec![leaf(TypeKind::Infer)]);
    assert!(should_check_cast(true, false, &vec_of_infer));
}

#[test]
fn boxed_trait_object_is_not_checked() {
    let boxed = node(TypeKind::Path, vec![leaf(TypeKind::TraitObject)]);
    assert!(contains_trait_object(&boxed));
    assert!(!should_check_cast(true, true, &boxed));
    let nested = node(
        TypeKind::Reference,
        vec![node(TypeKind::Tuple, vec![leaf(TypeKind::Path), boxed])],
    );
    assert!(contains_trait_object(&nested));
    assert!(!should_check_cast(true, false, &nested));
}

#[test]
fn types_without_trait_objects() {
    let t = node(
        TypeKind::Tuple,
        vec![node(TypeKind::Ptr, vec![leaf(TypeKind::Path)]), leaf(TypeKind::Never)],
    );
    assert!(!contains_trait_object(&t));
    assert!(contains_trait_object(&leaf(TypeKind::TraitObject)));
}

#[test]
fn location_of_a_cast() {
    assert_eq!(location_text("x as u16", "src/lib.rs", 3, 0), "`x as u16` at src/lib.rs:3:0");
    assert_eq!(location_text("y as u128", "tests/basic.rs", 23, 13), "`y as u128` at tests/basic.rs:23:13");
    assert_eq!(location_text("mod c;", "src/lib.rs", 1090, 100), "`mod c;` at src/lib.rs:1090:100");
}

#[test]
fn panic_messages() {
    assert_eq!(invalid_cast_message(None), "invalid cast");
    assert_eq!(
        invalid_cast_message(Some("`x as u16` at src/lib.rs:3:0")),
        "invalid cast in `x as u16` at src/lib.rs:3:0"
    );
}

#[test]
fn log_lines() {
    assert_eq!(
        rewrite_log_line(true, "`x as u16` at src/lib.rs:3:0"),
        Some(String::from("cast_checks rewriting `x as u16` at src/lib.rs:3:0"))
    );
    assert_eq!(rewrite_log_line(false, "`x as u16` at src/lib.rs:3:0"), None);
    assert_eq!(
        module_log_line(false, true, "`mod c;` at src/lib.rs:3:0"),
        Some(String::from("cast_checks not descending into `mod c;` at src/lib.rs:3:0"))
    );
    assert_eq!(module_log_line(true, true, "`mod c { }` at src/lib.rs:3:0"), None);
    assert_eq!(module_log_line(false, false, "`mod c;` at src/lib.rs:3:0"), None);
}

#[test]
fn environment_flags() {
    assert!(!flag_enabled(None));
    assert!(!flag_enabled(Some("0")));
    assert!(flag_enabled(Some("1")));
    assert!(flag_enabled(Some("")));
    assert!(flag_enabled(Some("00")));
}

#[test]
fn parse_failures() {
    assert_eq!(
        parse_failure_message(true, "expected item"),
        "applying `cast_checks::enable` at the crate root is not currently supported"
    );
    assert_eq!(
        parse_failure_message(false, "expected item"),
        "failed to parse item: expected item"
    );
}

fn artifact(name: &str, is_bin: bool, profile_test: bool, executable: Option<&str>) -> Artifact {
    Artifact {
        target_name: name.to_string(),
        is_bin,
        profile_test,
        executable: executable.map(|p| p.to_string()),
    }
}

#[test]
fn single_test_executable_is_found() {
    let artifacts = vec![
        artifact("ci", true, false, Some("target/debug/ci")),
        artifact("cast_checks", false, true, None),
        artifact("ci", true, true, Some("target/debug/deps/ci-1234")),
        artifact("other", true, true, Some("target/debug/deps/other-1")),
    ];
    assert_eq!(
        select_test_executable(&artifacts).ok(),
        Some(String::from("target/debug/deps/ci-1234"))
    );
}

#[test]
fn no_test_executable() {
    let artifacts = vec![
        artifact("ci", true, true, None),
        artifact("ci", false, true, Some("target/debug/deps/ci-1")),
    ];
    assert!(matches!(select_test_executable(&artifacts), Err(SelectError::NoExecutables)));
    assert!(matches!(select_test_executable(&Vec::new()), Err(SelectError::NoExecutables)));
}

#[test]
fn several_test_executables() {
    let artifacts = vec![
        artifact("ci", true, true, Some("a")),
        artifact("ci", true, true, Some("b")),
    ];
    match select_test_executable(&artifacts) {
        Err(SelectError::MultipleExecutables(paths)) => {
            assert_eq!(paths, vec![String::from("a"), String::from("b")])
        }
        _ => panic!("expected several executables"),
    }
}

use cast_checks::artifacts::{
    test_executable_from_build, test_executable_from_messages, BuildMessage, CiError,
};
use cast_checks::setup::build_directives;

fn artifact_line(name: &str, kind: &str, test: bool, executable: &str) -> String {
    let target = format!(r#"{{"name":"{name}","kind":["{kind}"],"src_path":"/w/ci/src/main.rs"}}"#);
    let profile = format!(
        r#"{{"opt_level":"0","debug_assertions":true,"overflow_checks":true,"test":{test}}}"#
    );
    format!(
        r#"{{"reason":"compiler-artifact","package_id":"ci 0.1.0","target":{target},"profile":{profile},"features":[],"filenames":[],"executable":{executable},"fresh":false}}"#
    )
}

#[test]
fn messages_without_artifacts_hold_no_executable() {
    let messages = vec![BuildMessage::Other, BuildMessage::Other];
    assert!(matches!(
        test_executable_from_messages(&messages),
        Err(SelectError::NoExecutables)
    ));
}

#[test]
fn messages_with_one_test_executable() {
    let messages = vec![
        BuildMessage::Other,
        BuildMessage::Compiled(artifact("ci", true, false, Some("target/debug/ci"))),
        BuildMessage::Compiled(artifact("ci", true, true, Some("target/debug/deps/ci-1"))),
        BuildMessage::Other,
    ];
    assert_eq!(
        test_executable_from_messages(&messages).ok(),
        Some(String::from("target/debug/deps/ci-1"))
    );
}

#[test]
fn build_output_with_one_test_executable() {
    let stdout = [
        artifact_line("cast_checks", "lib", false, "null"),
        String::from("   Compiling ci v0.1.0"),
        artifact_line("ci", "bin", true, r#""/w/target/debug/deps/ci-5""#),
        artifact_line("ci", "bin", false, r#""/w/target/debug/ci""#),
        String::from(r#"{"reason":"build-finished","success":true}"#),
    ]
    .join("\n");
    assert_eq!(
        test_executable_from_build(true, stdout.as_bytes()).ok(),
        Some(String::from("/w/target/debug/deps/ci-5"))
    );
}

#[test]
fn build_output_with_two_test_executables() {
    let stdout = [
        artifact_line("ci", "bin", true, r#""/a""#),
        artifact_line("ci", "bin", true, r#""/b""#),
    ]
    .join("\n");
    match test_executable_from_build(true, stdout.as_bytes()) {
        Err(CiError::Select(SelectError::MultipleExecutables(paths))) => {
            assert_eq!(paths, vec![String::from("/a"), String::from("/b")])
        }
        _ => panic!("expected several executables"),
    }
}

#[test]
fn build_output_without_test_executable() {
    let stdout = artifact_line("ci", "bin", false, r#""/w/target/debug/ci""#);
    assert!(matches!(
        test_executable_from_build(true, stdout.as_bytes()),
        Err(CiError::Select(SelectError::NoExecutables))
    ));
    assert!(matches!(
        test_executable_from_build(true, b""),
        Err(CiError::Select(SelectError::NoExecutables))
    ));
}

#[test]
fn failed_build() {
    let stdout = artifact_line("ci", "bin", true, r#""/w/target/debug/deps/ci-5""#);
    assert!(matches!(
        test_executable_from_build(false, stdout.as_bytes()),
        Err(CiError::CommandFailed)
    ));
}

#[test]
fn unreadable_build_output() {
    let mut stdout = artifact_line("ci", "bin", true, r#""/w/target/debug/deps/ci-5""#).into_bytes();
    stdout.extend_from_slice(b"\n\xff\xfe\n");
    match test_executable_from_build(true, &stdout) {
        Err(CiError::Unreadable(error)) => {
            assert_eq!(error, "stream did not contain valid UTF-8")
        }
        _ => panic!("expected the reader's error"),
    }
}

#[test]
fn build_setup_directives() {
    assert_eq!(
        build_directives(false, true),
        vec![String::from("cargo:rerun-if-env-changed=CAST_CHECKS_LOG")]
    );
    assert_eq!(
        build_directives(true, true),
        vec![
            String::from("cargo:rustc-cfg=procmacro2_semver_exempt"),
            String::from("cargo:rerun-if-env-changed=CAST_CHECKS_LOG"),
        ]
    );
    assert_eq!(
        build_directives(true, false),
        vec![
            String::from(
                "cargo:warning=`CAST_CHECKS_LOG` is enabled, but this option requires a nightly compiler"
            ),
            String::from("cargo:rerun-if-env-changed=CAST_CHECKS_LOG"),
        ]
    );
}

#[test]
fn more_integer_conversions() {
    assert_eq!(MaybeTryInto::<i64, u32>::new(4_294_967_295).maybe_try_into(), Some(Ok(u32::MAX)));
    assert!(matches!(MaybeTryInto::<i64, u32>::new(-1).maybe_try_into(), Some(Err(_))));
    assert!(matches!(MaybeTryInto::<u128, u64>::new(1u128 << 64).maybe_try_into(), Some(Err(_))));
    assert_eq!(MaybeTryInto::<usize, u16>::new(65535).maybe_try_into(), Some(Ok(65535u16)));
    assert_eq!(MaybeTryInto::<u8, u64>::new(200).maybe_try_into(), Some(Ok(200u64)));
    assert!(matches!(MaybeTryInto::<u8, i8>::new(128).maybe_try_into(), Some(Err(_))));
    assert_eq!(MaybeTryInto::<u8, i8>::new(127).maybe_try_into(), Some(Ok(127i8)));
    assert!(matches!(MaybeTryInto::<u64, i64>::new(u64::MAX).maybe_try_into(), Some(Err(_))));
    assert_eq!(MaybeTryInto::<u8, i16>::new(255).maybe_try_into(), Some(Ok(255i16)));
    assert_eq!(MaybeTryInto::<u32, i32>::new(5).maybe_try_into(), Some(Ok(5i32)));
}
