use ring_host::debug_requests::{check_run_steps, parse_request, ArgValue, DebugCommand};

fn args(list: &[(&str, ArgValue)]) -> Vec<(String, ArgValue)> {
    list.iter().map(|(k, v)| (k.to_string(), v.clone())).collect()
}

fn s(v: &str) -> ArgValue {
    ArgValue::Str(v.to_string())
}

#[test]
fn unknown_commands_are_named() {
    assert_eq!(parse_request("fly", &args(&[])), Err("Unknown command: fly".to_string()));
}

#[test]
fn missing_arguments_are_reported_in_order() {
    assert_eq!(parse_request("init_game", &args(&[])), Err("missing clientToken".to_string()));
    assert_eq!(
        parse_request("init_game", &args(&[("clientToken", s("client-1"))])),
        Err("missing scriptPath".to_string())
    );
    assert_eq!(
        parse_request("save_game", &args(&[("clientToken", s("c")), ("slot", s("3"))])),
        Err("missing slot".to_string())
    );
    assert_eq!(
        parse_request("save_game_with_thumbnail", &args(&[("clientToken", s("c")), ("slot", ArgValue::Unsigned(1))])),
        Err("missing thumbnail_base64".to_string())
    );
    assert_eq!(parse_request("get_thumbnail", &args(&[("clientToken", s("c"))])), Err("missing slot".to_string()));
    assert_eq!(parse_request("choose", &args(&[("clientToken", s("c")), ("index", ArgValue::Other)])), Err("missing index".to_string()));
    assert_eq!(parse_request("submit_ui_result", &args(&[("clientToken", s("c"))])), Err("missing key".to_string()));
    assert_eq!(parse_request("tick", &args(&[("clientToken", ArgValue::Unsigned(5))])), Err("missing clientToken".to_string()));
}

#[test]
fn accepted_requests_carry_their_arguments() {
    let q = parse_request(
        "init_game_at_label",
        &args(&[("clientToken", s("client-2")), ("scriptPath", s("scripts/main.rks")), ("label", s("ch2"))]),
    )
    .unwrap();
    assert_eq!(q.command, DebugCommand::InitGameAtLabel);
    assert_eq!(q.client_token.as_deref(), Some("client-2"));
    assert_eq!(q.script_path.as_deref(), Some("scripts/main.rks"));
    assert_eq!(q.label.as_deref(), Some("ch2"));
    assert_eq!(q.slot, None);

    let q = parse_request("load_game", &args(&[("slot", ArgValue::Unsigned(4_294_967_297)), ("clientToken", s("t"))])).unwrap();
    assert_eq!(q.slot, Some(1));

    let q = parse_request("get_render_state", &args(&[("clientToken", s("ignored"))])).unwrap();
    assert_eq!(q.command, DebugCommand::GetRenderState);
    assert_eq!(q.client_token, None);
}

#[test]
fn optional_arguments_take_their_defaults() {
    let q = parse_request("debug_run_until", &args(&[("clientToken", s("t"))])).unwrap();
    assert_eq!(q.max_steps, 600);
    assert!(q.stop_on_wait);
    assert!(q.stop_on_script_finished);
    let q = parse_request(
        "debug_run_until",
        &args(&[("clientToken", s("t")), ("maxSteps", ArgValue::Unsigned(5)), ("stopOnWait", ArgValue::Bool(false))]),
    )
    .unwrap();
    assert_eq!(q.max_steps, 5);
    assert!(!q.stop_on_wait);

    let q = parse_request("return_to_title", &args(&[("clientToken", s("t")), ("saveContinue", ArgValue::Bool(true))])).unwrap();
    assert!(q.save_continue);
    let q = parse_request("return_to_title", &args(&[("clientToken", s("t")), ("saveContinue", s("yes"))])).unwrap();
    assert!(!q.save_continue);

    let q = parse_request("log_frontend", &args(&[("message", s("hi"))])).unwrap();
    assert_eq!((q.log_level.as_str(), q.log_module.as_str(), q.log_message.as_str(), q.log_data.as_str()), ("debug", "unknown", "hi", ""));

    let q = parse_request("frontend_connected", &args(&[("clientLabel", s("panel"))])).unwrap();
    assert_eq!(q.client_label.as_deref(), Some("panel"));
}

#[test]
fn run_steps_are_capped() {
    assert_eq!(check_run_steps(100_000), Ok(100_000));
    assert_eq!(
        check_run_steps(100_001),
        Err("参数校验失败: max_steps 不能超过 100000，实际为 100001".to_string())
    );
}
