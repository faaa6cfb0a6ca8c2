use gotcha::cli::{Cli, GotchaCommand, RunOpts};
use gotcha::descriptor::{find_descriptor, RouteDescriptor, RouteMeta};
use gotcha::method::HttpMethod;
use gotcha::response::{
    internal_error_response, method_not_allowed_response, not_found_response, text_response,
    Responder,
};

#[test]
fn method_names_round_trip() {
    let methods = [
        HttpMethod::Get,
        HttpMethod::Post,
        HttpMethod::Put,
        HttpMethod::Patch,
        HttpMethod::Delete,
        HttpMethod::Options,
        HttpMethod::Head,
        HttpMethod::Connect,
        HttpMethod::Trace,
    ];
    for m in methods {
        assert_eq!(HttpMethod::from_name(m.name()), Some(m));
    }
    assert_eq!(HttpMethod::Get.name(), "GET");
    assert_eq!(HttpMethod::from_name("get"), None);
    assert_eq!(HttpMethod::from_name("BREW"), None);
    assert_eq!(HttpMethod::from_name(""), None);
}

#[test]
fn text_response_shape() {
    let r = text_response("hi".to_string());
    assert_eq!(r.status, 200);
    assert_eq!(r.body, "hi");
    assert_eq!(r.headers.len(), 1);
    assert_eq!(r.headers[0].0, "content-type");
    assert_eq!(r.headers[0].1, "text/plain");
}

#[test]
fn string_responder_converts_to_200_text() {
    let r = "hello world".to_string().to_response();
    assert_eq!(r.status, 200);
    assert_eq!(r.body, "hello world");
}

#[test]
fn miss_responses_are_fixed() {
    let nf = not_found_response();
    assert_eq!(nf.status, 404);
    assert_eq!(nf.body, "no route matches this path");

    let mna = method_not_allowed_response();
    assert_eq!(mna.status, 404);
    assert_eq!(mna.body, "this path does not accept this method");

    let ie = internal_error_response();
    assert_eq!(ie.status, 500);
    assert_eq!(ie.body, "internal server error");
}

#[test]
fn descriptor_from_meta_passes_fields_through() {
    let d = RouteDescriptor::from_meta(
        "list_pets".to_string(),
        HttpMethod::Get,
        RouteMeta {
            path: "/pets".to_string(),
            group: Some("pets".to_string()),
        },
        Some("Lists every pet.".to_string()),
    );
    assert_eq!(d.id, "list_pets");
    assert_eq!(d.method, HttpMethod::Get);
    assert_eq!(d.path, "/pets");
    assert_eq!(d.group.as_deref(), Some("pets"));
    assert_eq!(d.description.as_deref(), Some("Lists every pet."));
    assert!(!d.deprecated);
}

#[test]
fn descriptor_table_keyed_by_path_then_method() {
    let table = vec![
        RouteDescriptor::from_meta(
            "list_pets".to_string(),
            HttpMethod::Get,
            RouteMeta { path: "/pets".to_string(), group: None },
            None,
        ),
        RouteDescriptor::from_meta(
            "add_pet".to_string(),
            HttpMethod::Post,
            RouteMeta { path: "/pets".to_string(), group: None },
            None,
        ),
    ];
    assert_eq!(find_descriptor(&table, HttpMethod::Get, "/pets"), Some(0));
    assert_eq!(find_descriptor(&table, HttpMethod::Post, "/pets"), Some(1));
    assert_eq!(find_descriptor(&table, HttpMethod::Delete, "/pets"), None);
    assert_eq!(find_descriptor(&table, HttpMethod::Get, "/cats"), None);
}

#[test]
fn profile_flag_beats_environment() {
    let cli = Cli {
        profile: Some("staging".to_string()),
        command: GotchaCommand::Run(RunOpts {}),
    };
    assert_eq!(
        cli.effective_profile(Some("prod".to_string())),
        Some("staging".to_string())
    );
}

#[test]
fn environment_profile_is_fallback() {
    let cli = Cli {
        profile: None,
        command: GotchaCommand::Run(RunOpts {}),
    };
    assert_eq!(
        cli.effective_profile(Some("prod".to_string())),
        Some("prod".to_string())
    );
    assert_eq!(cli.effective_profile(None), None);
}

#[test]
fn run_command_is_recognized() {
    let cli = Cli {
        profile: None,
        command: GotchaCommand::Run(RunOpts {}),
    };
    assert!(cli.is_run());
}

#[test]
fn description_lines_trimmed_and_joined() {
    let lines = vec![
        " Greets whoever asks. ".to_string(),
        "\tSecond line  ".to_string(),
    ];
    assert_eq!(
        gotcha::descriptor::assemble_description(&lines),
        Some("Greets whoever asks.\nSecond line".to_string())
    );
    assert_eq!(gotcha::descriptor::assemble_description(&Vec::new()), None);
    assert_eq!(
        gotcha::descriptor::assemble_description(&vec!["   ".to_string()]),
        Some("".to_string())
    );
    assert_eq!(
        gotcha::descriptor::assemble_description(&vec!["\u{a0}wide\u{3000}".to_string()]),
        Some("wide".to_string())
    );
}
