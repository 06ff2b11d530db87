use ring_host::persistent::{PersistentStore, VarValue};
use ring_host::screens::{button_press, visible_buttons, ButtonDef, ButtonPress, parse_condition, ActionDef, ActionDefError, ConditionContext, ConditionDef, ConditionalAsset, ScreenDefinitions, ScreenDefsError};

#[test]
fn parse_condition_always_variants() {
    assert_eq!(parse_condition("true"), ConditionDef::Always);
    assert_eq!(parse_condition(""), ConditionDef::Always);
}

#[test]
fn parse_condition_has_continue() {
    assert_eq!(parse_condition("$has_continue"), ConditionDef::HasContinue);
}

#[test]
fn parse_condition_persistent_var() {
    assert_eq!(
        parse_condition("$persistent.my_flag"),
        ConditionDef::PersistentVar("my_flag".to_string())
    );
}

#[test]
fn parse_condition_not_persistent_var() {
    assert_eq!(
        parse_condition("!$persistent.my_flag"),
        ConditionDef::NotPersistentVar("my_flag".to_string())
    );
}

#[test]
fn parse_condition_unknown_defaults_to_always() {
    assert_eq!(parse_condition("$unknown_syntax"), ConditionDef::Always);
}

fn store_with(key: &str, val: VarValue) -> PersistentStore {
    let mut store = PersistentStore::empty();
    store.insert(key.to_string(), val);
    store
}

#[test]
fn condition_always_is_true_regardless_of_context() {
    let store = PersistentStore::empty();
    let ctx = ConditionContext { has_continue: false, persistent: &store };
    assert!(ConditionDef::Always.evaluate(&ctx));
}

#[test]
fn condition_has_continue_mirrors_context_flag() {
    let store = PersistentStore::empty();
    let ctx_no = ConditionContext { has_continue: false, persistent: &store };
    let ctx_yes = ConditionContext { has_continue: true, persistent: &store };
    assert!(!ConditionDef::HasContinue.evaluate(&ctx_no));
    assert!(ConditionDef::HasContinue.evaluate(&ctx_yes));
}

#[test]
fn condition_persistent_var_true_when_set() {
    let store_set = store_with("flag", VarValue::Bool(true));
    let store_unset = PersistentStore::empty();
    let ctx_set = ConditionContext { has_continue: false, persistent: &store_set };
    let ctx_unset = ConditionContext { has_continue: false, persistent: &store_unset };
    assert!(ConditionDef::PersistentVar("flag".to_string()).evaluate(&ctx_set));
    assert!(!ConditionDef::PersistentVar("flag".to_string()).evaluate(&ctx_unset));
}

#[test]
fn condition_not_persistent_var_inverts_truthy() {
    let store_set = store_with("flag", VarValue::Bool(true));
    let ctx = ConditionContext { has_continue: false, persistent: &store_set };
    assert!(!ConditionDef::NotPersistentVar("flag".to_string()).evaluate(&ctx));
    let store_unset = PersistentStore::empty();
    let ctx2 = ConditionContext { has_continue: false, persistent: &store_unset };
    assert!(ConditionDef::NotPersistentVar("flag".to_string()).evaluate(&ctx2));
}

#[test]
fn non_bool_values_are_not_truthy() {
    let store = store_with("flag", VarValue::Int(1));
    let ctx = ConditionContext { has_continue: false, persistent: &store };
    assert!(!ConditionDef::PersistentVar("flag".to_string()).evaluate(&ctx));
    let store = store_with("flag", VarValue::Bool(false));
    let ctx = ConditionContext { has_continue: false, persistent: &store };
    assert!(!ConditionDef::PersistentVar("flag".to_string()).evaluate(&ctx));
}

#[test]
fn action_def_deserialize_string_variants() {
    let pairs: &[(&str, ActionDef)] = &[
        ("start_game", ActionDef::StartGame),
        ("continue_game", ActionDef::ContinueGame),
        ("go_back", ActionDef::GoBack),
        ("return_to_title", ActionDef::ReturnToTitle),
        ("exit", ActionDef::Exit),
        ("quick_save", ActionDef::QuickSave),
        ("quick_load", ActionDef::QuickLoad),
    ];
    for (id, expected) in pairs {
        let got = ActionDef::parse_str(id).unwrap();
        assert_eq!(got, *expected, "failed for {id}");
    }
}

#[test]
fn action_def_deserialize_start_at_label_object() {
    let entries = vec![("start_at_label".to_string(), Some("prologue".to_string()))];
    let got = ActionDef::parse_object(&entries).unwrap();
    assert_eq!(got, ActionDef::StartAtLabel("prologue".to_string()));
}

#[test]
fn action_def_deserialize_unknown_string_errors() {
    let result = ActionDef::parse_str("not_a_real_action");
    assert_eq!(result, Err(ActionDefError::UnknownVariant("not_a_real_action".to_string())));
}

#[test]
fn action_object_errors() {
    assert_eq!(ActionDef::parse_object(&vec![]), Err(ActionDefError::MissingField));
    assert_eq!(
        ActionDef::parse_object(&vec![("label".to_string(), Some("x".to_string()))]),
        Err(ActionDefError::UnknownField("label".to_string()))
    );
    assert_eq!(
        ActionDef::parse_object(&vec![("start_at_label".to_string(), None)]),
        Err(ActionDefError::InvalidValue)
    );
    assert_eq!(
        ActionDef::parse_object(&vec![
            ("start_at_label".to_string(), Some("a".to_string())),
            ("start_at_label".to_string(), Some("b".to_string())),
        ]),
        Ok(ActionDef::StartAtLabel("b".to_string()))
    );
}

#[test]
fn every_action_id_parses() {
    let ids = [
        ("open_load", ActionDef::OpenLoad), ("open_save", ActionDef::OpenSave),
        ("navigate_settings", ActionDef::NavigateSettings), ("navigate_history", ActionDef::NavigateHistory),
        ("replace_settings", ActionDef::ReplaceSettings), ("replace_history", ActionDef::ReplaceHistory),
        ("toggle_skip", ActionDef::ToggleSkip), ("toggle_auto", ActionDef::ToggleAuto),
        ("return_to_game", ActionDef::ReturnToGame),
    ];
    for (id, a) in ids {
        assert_eq!(ActionDef::from_action_id(id), Some(a));
    }
    assert_eq!(ActionDef::from_action_id("Exit"), None);
}

fn assets() -> Vec<ConditionalAsset> {
    vec![
        ConditionalAsset { when: Some(ConditionDef::PersistentVar("flag".to_string())), asset: "asset_when_set".to_string() },
        ConditionalAsset { when: None, asset: "fallback".to_string() },
    ]
}

#[test]
fn conditional_asset_resolve_first_matching_condition() {
    let store = store_with("flag", VarValue::Bool(true));
    let ctx = ConditionContext { has_continue: false, persistent: &store };
    assert_eq!(ConditionalAsset::resolve(&assets(), &ctx), Some("asset_when_set"));
}

#[test]
fn conditional_asset_resolve_falls_back_when_condition_unmet() {
    let store = PersistentStore::empty();
    let ctx = ConditionContext { has_continue: false, persistent: &store };
    assert_eq!(ConditionalAsset::resolve(&assets(), &ctx), Some("fallback"));
}

#[test]
fn conditional_asset_resolve_empty_list_returns_none() {
    let store = PersistentStore::empty();
    let ctx = ConditionContext { has_continue: false, persistent: &store };
    assert_eq!(ConditionalAsset::resolve(&[], &ctx), None);
}

#[test]
fn default_screen_definitions() {
    let d = ScreenDefinitions::default_for_tests();
    assert_eq!(d.title.background[0].asset, "main_summer");
    assert_eq!(d.title.buttons[0].action, ActionDef::StartGame);
    assert_eq!(d.game_menu.return_button.action, ActionDef::ReturnToGame);
    assert!(d.quick_menu.buttons.is_empty());
}

#[test]
fn screen_defs_error_messages() {
    assert_eq!(ScreenDefsError::NotFound("x".into()).message(), "界面配置加载失败: x");
    assert_eq!(ScreenDefsError::ParseFailed("y".into()).message(), "界面配置解析失败: y");
}

#[test]
fn persistent_merge_runtime_values_win() {
    let mut store = store_with("a", VarValue::Int(1));
    store.insert("b".to_string(), VarValue::String("keep".to_string()));
    store.merge_from(&vec![
        ("a".to_string(), VarValue::Bool(true)),
        ("c".to_string(), VarValue::Float(2.5f64.to_bits())),
    ]);
    assert!(matches!(store.get("a"), Some(VarValue::Bool(true))));
    assert!(matches!(store.get("b"), Some(VarValue::String(s)) if s == "keep"));
    assert!(matches!(store.get("c"), Some(VarValue::Float(bits)) if f64::from_bits(*bits) == 2.5));
    assert!(store.get("d").is_none());
    assert_eq!(store.entries().len(), 3);
}

fn button(label: &str, action: ActionDef, visible: Option<ConditionDef>, confirm: Option<&str>) -> ButtonDef {
    ButtonDef { label: label.to_string(), action, visible, confirm: confirm.map(|c| c.to_string()) }
}

#[test]
fn buttons_show_by_condition_and_press_by_kind() {
    let store = store_with("winter", VarValue::Bool(true));
    let ctx = ConditionContext { has_continue: false, persistent: &store };
    let buttons = vec![
        button("start", ActionDef::StartGame, None, None),
        button("continue", ActionDef::ContinueGame, Some(ConditionDef::HasContinue), None),
        button("winter", ActionDef::StartAtLabel("w".to_string()), Some(ConditionDef::PersistentVar("winter".to_string())), None),
        button("exit", ActionDef::Exit, Some(ConditionDef::NotPersistentVar("winter".to_string())), Some("退出？")),
        button("quit", ActionDef::Exit, None, None),
    ];
    assert_eq!(visible_buttons(&buttons, &ctx), vec![0, 2, 4]);
    assert_eq!(button_press(&buttons[0]), ButtonPress::Execute);
    assert_eq!(button_press(&buttons[3]), ButtonPress::Confirm("退出？".to_string()));
    assert_eq!(button_press(&buttons[4]), ButtonPress::CloseWindow);
}
