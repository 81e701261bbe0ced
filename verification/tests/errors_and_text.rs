use nfw_core_application::workspace_root::first_marked_directory;
use nfw_core_application::sorting::text_less;
use nfw_core_application::template_management::errors::{
    AddArtifactError, GenerateError, TemplateError,
};
use nfw_core_application::template_management::model::Version;
use nfw_core_application::text::{eq_ignore_ascii_case, replace, split, strip_prefix, trim};

#[test]
fn template_error_messages_and_identifiers() {
    let injection = TemplateError::TemplateInjectionError {
        message: "region missing".to_owned(),
        file_path: Some("src/lib.rs".to_owned()),
        region: Some("imports".to_owned()),
        template_id: None,
    };
    assert_eq!(
        injection.message(),
        "template injection error for Some(\"imports\") in src/lib.rs: region missing"
    );
    assert_eq!(injection.error_id(), "TEMPLATE_INJECTION_ERROR");
    let unnamed = TemplateError::TemplateInjectionError {
        message: "m".to_owned(),
        file_path: None,
        region: None,
        template_id: None,
    };
    assert_eq!(unnamed.message(), "template injection error for None in unknown: m");
    let render = TemplateError::TemplateRenderError {
        message: "bad placeholder".to_owned(),
        step_index: Some(12),
        template_id: Some("web-api".to_owned()),
        file_path: None,
        source: None,
    };
    assert_eq!(render.message(), "template rendering error at step 12 in web-api: bad placeholder");
    let io = TemplateError::io("denied".to_owned(), "/t".to_owned());
    assert_eq!(io.message(), "I/O error at /t: denied");
    assert_eq!(io.error_id(), "TEMPLATE_IO_ERROR");
    let config = TemplateError::TemplateConfigError { message: "no id".to_owned(), template_id: None };
    assert_eq!(config.message(), "template configuration error for unknown: no id");
}

#[test]
fn artifact_and_generate_error_messages() {
    assert_eq!(
        AddArtifactError::ConfigError("x".to_owned()).message(),
        "configuration error: x"
    );
    assert_eq!(
        AddArtifactError::ArtifactAlreadyExists("y".to_owned()).message(),
        "artifact already exists: y"
    );
    let failed = AddArtifactError::ExecutionFailed(Box::new(TemplateError::io(
        "denied".to_owned(),
        "/t".to_owned(),
    )));
    assert_eq!(failed.message(), "execution failed:\nI/O error at /t: denied");
    assert_eq!(GenerateError::InvalidIdentifier("z".to_owned()).message(), "z");
    assert_eq!(
        GenerateError::TemplateNotFound("t1".to_owned()).message(),
        "template not found: t1"
    );
}

#[test]
fn versions_print_as_they_parse() {
    assert_eq!(Version::parse("1.2.3").unwrap().to_text(), "1.2.3");
    assert_eq!(Version::parse("0.10.0-rc.1+build.5").unwrap().to_text(), "0.10.0-rc.1+build.5");
    assert!(Version::parse("1.2").is_err());
    let v = Version::parse("4.5.6").unwrap();
    assert_eq!((v.major, v.minor, v.patch), (4, 5, 6));
}

#[test]
fn text_helpers_follow_str() {
    assert_eq!(trim("  a b\t\n"), "a b");
    assert_eq!(trim("\u{3000}x\u{a0}"), "x");
    assert_eq!(split("a,,b", ','), vec!["a".to_owned(), String::new(), "b".to_owned()]);
    assert_eq!(replace("{{ Service }}.Api/{{ Service }}", "{{ Service }}", "Orders"), "Orders.Api/Orders");
    assert_eq!(strip_prefix("Orders.Api", "Orders."), Some("Api".to_owned()));
    assert_eq!(strip_prefix("Api", "Orders."), None);
    assert!(eq_ignore_ascii_case("SeRvIcE", "service"));
    assert!(!eq_ignore_ascii_case("services", "service"));
}

#[test]
fn text_order_is_the_order_of_str() {
    let samples = ["", "a", "ab", "b", "B", "é", "z", "aa", "Ab"];
    for a in samples {
        for b in samples {
            assert_eq!(text_less(a, b), a < b, "{a:?} < {b:?}");
        }
    }
}

#[test]
fn replacing_the_empty_pattern_surrounds_every_character() {
    assert_eq!(replace("abc", "", "-"), "abc".replace("", "-"));
    assert_eq!(replace("", "", "-"), "-");
}

#[test]
fn searching_again_from_the_found_workspace_root_finds_it() {
    let candidates: Vec<String> = ["/w/src/a", "/w/src", "/w", "/"].iter().map(|s| s.to_string()).collect();
    let marks = vec![false, false, true, true];
    assert_eq!(first_marked_directory(&candidates, &marks), Some("/w".to_owned()));
    let again = first_marked_directory(&candidates[2..].to_vec(), &marks[2..].to_vec());
    assert_eq!(again, Some("/w".to_owned()));
    assert_eq!(first_marked_directory(&candidates, &vec![false; 4]), None);
}
