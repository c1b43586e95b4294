use muxterm_frontend::client::call::FfiClient;
use muxterm_frontend::client::config::{
    client_target_json, dotted_config_pointer, intent_name,
    replace, ClientAttentionConfig, ClientBehaviorConfig, ClientOnLastPaneExit, ClientPoolConfig,
    ClientScrollbackConfig, ClientStatusbarConfig, ClientThemeConfig, ClientTmuxConfig,
    ConfigTransaction,
};
use muxterm_frontend::client::request::{attention_text, open_request_text, patch_text};
use muxterm_frontend::client::types::{
    ClientCandidateRef, ClientExistingCandidateRef, ClientJsonPatchOperation, ClientOpenIntent,
    ClientOpenRequest, ClientTarget,
};
use serde_json::Value;

#[test]
fn dotted_config_pointer_escapes_json_pointer_tokens() {
    assert_eq!(
        dotted_config_pointer("theme.name").expect("valid config path"),
        "/theme/name"
    );
    assert_eq!(
        dotted_config_pointer("extensions.vendor~name.value/name").expect("valid config path"),
        "/extensions/vendor~0name/value~1name"
    );
}

#[test]
fn a_path_is_read_back_from_its_pointer() {
    for path in ["a", "a.b", ".", "a..b.", "~1/~0./~", "x~.~01"] {
        let pointer = dotted_config_pointer(path).expect("valid config path");
        let back: Vec<String> = pointer[1..]
            .split('/')
            .map(|token| token.replace("~1", "/").replace("~0", "~"))
            .collect();
        assert_eq!(back.join("."), path);
    }
}

#[test]
fn dotted_config_pointer_rejects_empty_path() {
    assert!(dotted_config_pointer(" ").is_err());
}

#[test]
fn blank_path_is_named_in_the_error() {
    assert_eq!(dotted_config_pointer(""), Err("配置路径不能为空"));
    assert!(FfiClient::config_apply_path("\t", "1".into()).is_err());
}

#[test]
fn replace_uses_rfc6902_operation() {
    let operation = replace("/font/size", "13.0".into());
    assert_eq!(operation.op, "replace");
    assert_eq!(operation.path, "/font/size");
    assert_eq!(operation.value.as_deref(), Some("13.0"));
}

#[test]
fn dotted_path_becomes_one_replacement() {
    let operation = FfiClient::config_apply_path("font.size", "14".into()).expect("valid path");
    assert_eq!(operation.op, "replace");
    assert_eq!(operation.path, "/font/size");
    assert_eq!(operation.value.as_deref(), Some("14"));
}

#[test]
fn client_target_json_preserves_attach_identity_fields() {
    let target = ClientTarget {
        name: "buildbox".into(),
        runtime: "herdr".into(),
        transport: "ssh".into(),
        target: Some("devbox".into()),
        path: "/workspace/project".into(),
        session: Some("agent".into()),
        socket: Some("/tmp/herdr.sock".into()),
    };
    let value: Value = serde_json::from_str(&client_target_json(&target)).expect("valid JSON");
    assert_eq!(value["runtime"], "herdr");
    assert_eq!(value["transport"], "ssh");
    assert_eq!(value["target"], "devbox");
    assert_eq!(value["session"], "agent");
    assert_eq!(value["socket"], "/tmp/herdr.sock");
}

#[test]
fn target_text_is_what_a_serializer_writes() {
    let target = ClientTarget {
        name: "a \"quoted\"\n\u{1}name\\".into(),
        runtime: "tmux".into(),
        transport: "local".into(),
        target: None,
        path: "/中文".into(),
        session: None,
        socket: None,
    };
    let text = client_target_json(&target);
    let value: Value = serde_json::from_str(&text).expect("valid JSON");
    assert_eq!(value["name"], target.name.as_str());
    assert!(value["target"].is_null());
    assert_eq!(value.to_string(), text);
}

#[test]
fn intents_have_words() {
    assert_eq!(intent_name(ClientOpenIntent::AttachOnly), "attach_only");
    assert_eq!(intent_name(ClientOpenIntent::CreateIfMissing), "create_if_missing");
}

#[test]
fn good_answers_lead_to_a_committed_snapshot() {
    let step = FfiClient::config_apply(ConfigTransaction::Begin, Ok("tx".into()));
    assert_eq!(step, ConfigTransaction::Patch { transaction: "tx".into() });
    let step = FfiClient::config_apply(step, Ok(String::new()));
    assert_eq!(step, ConfigTransaction::Commit { transaction: "tx".into() });
    assert_eq!(FfiClient::config_apply(step, Ok("rev".into())), ConfigTransaction::Describe);
}

#[test]
fn failed_patch_cancels_and_reports_its_own_error() {
    let step = FfiClient::config_apply(
        ConfigTransaction::Patch { transaction: "tx".into() },
        Err("bad value".into()),
    );
    assert_eq!(
        step,
        ConfigTransaction::Cancel { transaction: "tx".into(), error: "bad value".into() }
    );
    assert_eq!(
        FfiClient::config_apply(step, Err("cancel failed too".into())),
        ConfigTransaction::Failed { error: "bad value".into() }
    );
}

#[test]
fn failed_begin_cancels_nothing() {
    assert_eq!(
        FfiClient::config_apply(ConfigTransaction::Begin, Err("busy".into())),
        ConfigTransaction::Failed { error: "busy".into() }
    );
}

#[test]
fn attention_config_serializes_as_public_ffi_shape() {
    let config = ClientAttentionConfig {
        enabled: false,
        blocked_regex: vec!["^needs-input$".into()],
        debounce_ms: 250,
    };
    let value: Value = serde_json::from_str(&attention_text(&config)).expect("valid JSON");
    let expected: Value = serde_json::from_str(
        r#"{"enabled":false,"blocked_regex":["^needs-input$"],"debounce_ms":250}"#,
    )
    .expect("valid JSON");
    assert_eq!(value, expected);
}

#[test]
fn config_patch_serializes_as_core_json_patch() {
    let patch = vec![ClientJsonPatchOperation {
        op: "replace".into(),
        path: "/font/size".into(),
        value: Some("14.0".into()),
    }];
    let value: Value = serde_json::from_str(&patch_text(&patch)).expect("valid JSON");
    let expected: Value =
        serde_json::from_str(r#"[{"op":"replace","path":"/font/size","value":14.0}]"#)
            .expect("valid JSON");
    assert_eq!(value, expected);
    let removal = vec![ClientJsonPatchOperation {
        op: "remove".into(),
        path: "/a\"b".into(),
        value: None,
    }];
    assert_eq!(patch_text(&removal), r#"[{"op":"remove","path":"/a\"b"}]"#);
}

#[test]
fn open_request_json_keeps_typed_identity() {
    let request = ClientOpenRequest {
        candidate: ClientCandidateRef::Recent { key: "recent-key".into() },
        intent: ClientOpenIntent::AttachOnly,
        template: None,
        activate: false,
    };
    let encoded: Value = serde_json::from_str(&open_request_text(&request)).expect("valid JSON");
    assert_eq!(encoded["candidate"]["kind"], "recent");
    assert_eq!(encoded["candidate"]["value"]["key"], "recent-key");
    assert_eq!(encoded["intent"], "attach_only");
    assert_eq!(encoded["activate"], false);
    let existing = ClientOpenRequest {
        candidate: ClientCandidateRef::Existing {
            identity: ClientExistingCandidateRef {
                runtime_id: "herdr".into(),
                transport_id: "ssh".into(),
                target: "buildbox".into(),
                session: Some("agent".into()),
                socket: None,
                workspace_id: Some("w7".into()),
            },
        },
        intent: ClientOpenIntent::CreateIfMissing,
        template: Some("dev".into()),
        activate: true,
    };
    assert_eq!(
        open_request_text(&existing),
        r#"{"candidate":{"kind":"existing","value":{"identity":{"runtime_id":"herdr","transport_id":"ssh","target":"buildbox","session":"agent","workspace_id":"w7"}}},"intent":"create_if_missing","template":"dev","activate":true}"#
    );
}

#[test]
fn configuration_has_defaults() {
    assert_eq!(ClientThemeConfig::default().name, "system");
    assert_eq!(ClientStatusbarConfig::default().mode, "tmux");
    assert_eq!(ClientPoolConfig::default().max_slots, 20);
    assert_eq!(ClientScrollbackConfig::default().lines, 10_000);
    assert_eq!(ClientTmuxConfig::default().socket, "");
    assert!(ClientAttentionConfig::default().enabled);
    assert_eq!(
        ClientBehaviorConfig::default().on_last_pane_exit,
        ClientOnLastPaneExit::CloseWindow
    );
}
