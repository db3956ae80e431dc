use clightningrpc_plugin::{
    decode_request, LogLevel, MethodHandler, Plugin, ProtocolError, RPCCommand, RequestId, Step,
};
use serde_json::Value;

#[derive(Clone)]
enum Handler {
    /// Answers `{"ok":true}`.
    Okay,
    /// Answers the given number.
    Number(u64),
    /// Counts its calls in the state and answers the new count.
    Count,
    /// Registers a method `late` while it runs, then answers `null`.
    Register,
}

impl RPCCommand<u64> for Handler {
    fn answers(
        &self,
        _before: Plugin<u64, Self>,
        _params: Value,
        _after: Plugin<u64, Self>,
        _answer: Value,
    ) -> bool {
        true
    }

    fn duplicate(&self) -> Self {
        self.clone()
    }

    fn call(&self, plugin: &mut Plugin<u64, Self>, _params: &Value) -> Value {
        match self {
            Handler::Okay => {
                let mut m = serde_json::Map::new();
                m.insert("ok".to_string(), Value::Bool(true));
                Value::Object(m)
            }
            Handler::Number(n) => Value::from(*n),
            Handler::Count => {
                let n = *plugin.get_state() + 1;
                plugin.set_state(n);
                Value::from(n)
            }
            Handler::Register => {
                plugin.add_rpc_method("late", "", "added while serving", Handler::Number(9));
                Value::Null
            }
        }
    }
}

fn serving(dynamic: bool) -> Plugin<u64, Handler> {
    let mut p = Plugin::new(0, dynamic);
    p.install_builtins();
    p
}

fn respond(p: &mut Plugin<u64, Handler>, line: &str) -> String {
    match p.handle_line(line) {
        Step::Respond(s) => s,
        _ => panic!("no response to {line}"),
    }
}

#[test]
fn method_answer_is_wrapped_with_request_id() {
    let mut p = Plugin::new(0, false);
    p.add_rpc_method("foo", "", "answers ok", Handler::Okay);
    p.install_builtins();
    let out = respond(&mut p, r#"{"method":"foo","params":{},"id":1}"#);
    assert_eq!(out, r#"{"id":1,"result":{"ok":true}}"#);
}

#[test]
fn empty_manifest_of_dynamic_plugin() {
    let mut p = serving(true);
    let out = respond(&mut p, r#"{"method":"getmanifest","params":{},"id":2}"#);
    assert_eq!(
        out,
        r#"{"id":2,"result":{"options":[],"rpcmethods":[],"hooks":[],"notifications":[],"dynamic":true}}"#
    );
}

#[test]
fn unknown_method_gives_error_envelope_with_its_name() {
    let mut p = serving(false);
    let out = respond(&mut p, r#"{"method":"nosuch","params":{},"id":3}"#);
    assert_eq!(
        out,
        r#"{"id":3,"error":{"code":-32601,"message":"Method not found: nosuch"}}"#
    );
    let again = respond(&mut p, r#"{"method":"getmanifest","params":{},"id":4}"#);
    assert!(again.starts_with(r#"{"id":4,"result":{"options":[]"#));
}

#[test]
fn blank_lines_are_skipped() {
    let mut p = serving(false);
    for line in ["", " ", "\n", "\r\n", "\t \n", "\u{3000}"] {
        assert!(matches!(p.handle_line(line), Step::Skip));
    }
    let out = respond(&mut p, "{\"method\":\"init\",\"params\":{},\"id\":5}\n");
    assert_eq!(out, r#"{"id":5,"result":{}}"#);
}

#[test]
fn string_and_large_ids_are_echoed() {
    let mut p = Plugin::new(0, false);
    p.add_rpc_method("foo", "", "", Handler::Okay);
    p.install_builtins();
    let out = respond(&mut p, r#"{"method":"foo","params":[],"id":"a\"b"}"#);
    assert_eq!(out, r#"{"id":"a\"b","result":{"ok":true}}"#);
    let out = respond(&mut p, r#"{"method":"foo","params":[],"id":18446744073709551615}"#);
    assert_eq!(out, r#"{"id":18446744073709551615,"result":{"ok":true}}"#);
    let out = respond(&mut p, r#"{"method":"foo","params":[],"id":0}"#);
    assert_eq!(out, r#"{"id":0,"result":{"ok":true}}"#);
    let out = respond(&mut p, r#"{"method":"foo","params":[],"id":-7}"#);
    assert_eq!(out, r#"{"id":-7,"result":{"ok":true}}"#);
    let out = respond(&mut p, r#"{"method":"init","params":{},"id":2.5}"#);
    assert_eq!(out, r#"{"id":2.5,"result":{}}"#);
}

#[test]
fn second_registration_of_a_method_wins() {
    let mut p = Plugin::new(0, false);
    p.add_rpc_method("num", "first", "first", Handler::Number(1));
    p.add_rpc_method("num", "second", "second", Handler::Number(2));
    p.install_builtins();
    let out = respond(&mut p, r#"{"method":"num","params":{},"id":7}"#);
    assert_eq!(out, r#"{"id":7,"result":2}"#);
    let m = p.manifest_json();
    assert_eq!(
        m,
        r#"{"options":[],"rpcmethods":[{"name":"num","usage":"second","description":"second","deprecated":false}],"hooks":[],"notifications":[],"dynamic":false}"#
    );
}

#[test]
fn distinct_registrations_all_appear_in_manifest() {
    let mut p = Plugin::new(0, false);
    p.add_opt("color", "string", Some("red".to_string()), "a color", false);
    p.add_opt("size", "int", None, "a size", true);
    p.add_rpc_method("a", "[x]", "method a", Handler::Okay);
    p.add_rpc_method("b", "", "method b", Handler::Number(3));
    p.register_hook(
        "peer_connected",
        Some(vec!["x".to_string(), "y".to_string()]),
        None,
        Handler::Okay,
    );
    p.register_hook("db_write", None, Some(vec![]), Handler::Okay);
    p.register_notification("connect", Handler::Okay);
    p.register_notification("disconnect", Handler::Okay);
    p.install_builtins();
    let out = respond(&mut p, r#"{"method":"getmanifest","params":{},"id":8}"#);
    let expected = [
        r#"{"id":8,"result":{"options":["#,
        r#"{"name":"color","type":"string","default":"red","description":"a color","deprecated":false},"#,
        r#"{"name":"size","type":"int","description":"a size","deprecated":true}],"#,
        r#""rpcmethods":[{"name":"a","usage":"[x]","description":"method a","deprecated":false},"#,
        r#"{"name":"b","usage":"","description":"method b","deprecated":false}],"#,
        r#""hooks":[{"name":"peer_connected","before":["x","y"]},{"name":"db_write","after":[]}],"#,
        r#""notifications":["connect","disconnect"],"dynamic":false}}"#,
    ]
    .join("");
    assert_eq!(out, expected);
    let parsed: Value = serde_json::from_str(&out).unwrap();
    assert_eq!(parsed["result"]["rpcmethods"].as_array().unwrap().len(), 2);
}

#[test]
fn builtins_supersede_user_methods_of_their_names() {
    let mut p = Plugin::new(0, true);
    p.add_rpc_method("init", "", "", Handler::Number(1));
    p.add_rpc_method("getmanifest", "", "", Handler::Number(2));
    p.install_builtins();
    let out = respond(&mut p, r#"{"method":"init","params":{},"id":1}"#);
    assert_eq!(out, r#"{"id":1,"result":{}}"#);
    let out = respond(&mut p, r#"{"method":"getmanifest","params":{},"id":2}"#);
    assert!(out.starts_with(r#"{"id":2,"result":{"options":[],"rpcmethods":["#));
    assert!(out.ends_with(r#""dynamic":true}}"#));
}

#[test]
fn builtins_answer_without_any_registration() {
    let mut p: Plugin<u64, Handler> = Plugin::new(0, false);
    p.install_builtins();
    let out = respond(&mut p, r#"{"method":"init","params":{"options":{}},"id":10}"#);
    assert_eq!(out, r#"{"id":10,"result":{}}"#);
}

#[test]
fn same_option_twice_gives_one_entry() {
    let mut p: Plugin<u64, Handler> = Plugin::new(0, false);
    p.add_opt("level", "int", Some("3".to_string()), "a level", false);
    p.add_opt("level", "int", Some("3".to_string()), "a level", false);
    assert_eq!(
        p.manifest_json(),
        r#"{"options":[{"name":"level","type":"int","default":"3","description":"a level","deprecated":false}],"rpcmethods":[],"hooks":[],"notifications":[],"dynamic":false}"#
    );
}

#[test]
fn handlers_reach_state_and_registries() {
    let mut p = Plugin::new(0, false);
    p.add_rpc_method("count", "", "", Handler::Count);
    p.add_rpc_method("register", "", "", Handler::Register);
    p.install_builtins();
    assert_eq!(respond(&mut p, r#"{"method":"count","params":{},"id":1}"#), r#"{"id":1,"result":1}"#);
    assert_eq!(respond(&mut p, r#"{"method":"count","params":{},"id":2}"#), r#"{"id":2,"result":2}"#);
    assert_eq!(*p.get_state(), 2);
    assert_eq!(respond(&mut p, r#"{"method":"late","params":{},"id":3}"#), r#"{"id":3,"error":{"code":-32601,"message":"Method not found: late"}}"#);
    assert_eq!(respond(&mut p, r#"{"method":"register","params":{},"id":4}"#), r#"{"id":4,"result":null}"#);
    assert_eq!(respond(&mut p, r#"{"method":"late","params":{},"id":5}"#), r#"{"id":5,"result":9}"#);
}

#[test]
fn malformed_lines_stop_serving() {
    let mut p = serving(false);
    assert!(matches!(p.handle_line("{not json"), Step::Fatal(ProtocolError::NotJson)));
    assert!(matches!(p.handle_line(r#"{"params":{},"id":1}"#), Step::Fatal(ProtocolError::NoMethod)));
    assert!(matches!(p.handle_line(r#"{"method":7,"params":{},"id":1}"#), Step::Fatal(ProtocolError::NoMethod)));
    assert!(matches!(p.handle_line(r#"{"method":"init","id":1}"#), Step::Fatal(ProtocolError::NoParams)));
    assert!(matches!(p.handle_line(r#"{"method":"init","params":{}}"#), Step::Fatal(ProtocolError::NoId)));
}

#[test]
fn decode_prefers_numeric_id() {
    let r = decode_request(
        Some("m".to_string()),
        Some(Value::Null),
        Some("4".to_string()),
        Some("s".to_string()),
    );
    match r {
        Ok(req) => {
            assert_eq!(req.method, "m");
            assert!(matches!(req.id, RequestId::Num(ref n) if n == "4"));
        }
        Err(_) => panic!("expected a request"),
    }
    assert!(matches!(decode_request(None, None, None, None), Err(ProtocolError::NoMethod)));
}

#[test]
fn log_line_shape() {
    assert_eq!(
        clightningrpc_plugin::log_json(LogLevel::Info, "hello \"world\"\n"),
        r#"{"id":40,"result":{"level":"info","message":"hello \"world\"\n"}}"#
    );
    assert_eq!(
        clightningrpc_plugin::log_json(LogLevel::Warn, ""),
        r#"{"id":40,"result":{"level":"warn","message":""}}"#
    );
}

#[test]
fn decimal_digits() {
    assert_eq!(clightningrpc_plugin::decimal_text(0), "0");
    assert_eq!(clightningrpc_plugin::decimal_text(9), "9");
    assert_eq!(clightningrpc_plugin::decimal_text(10), "10");
    assert_eq!(clightningrpc_plugin::decimal_text(12345), "12345");
    assert_eq!(clightningrpc_plugin::decimal_text(u64::MAX), "18446744073709551615");
}

#[test]
fn blank_line_detection() {
    assert!(clightningrpc_plugin::blank_line(""));
    assert!(clightningrpc_plugin::blank_line(" \t\r\n\u{a0}"));
    assert!(!clightningrpc_plugin::blank_line(" x "));
    assert!(!clightningrpc_plugin::blank_line("{}"));
}

#[test]
fn method_handler_variants() {
    let h: MethodHandler<Handler> = MethodHandler::Custom(Handler::Okay);
    assert!(matches!(h, MethodHandler::Custom(_)));
}
