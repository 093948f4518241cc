use homenis::application::HomenisState;
use homenis::handler::identify;
use homenis::json::{push_decimal, push_json_string};
use homenis::protocol::{Heatbeat, IdentifyRequest};
use homenis::service::discord::{DiscordPostMessage, DiscordService};
use homenis::service::dispatch::{DispatchService, DispatchState};

#[test]
fn identify_default_and_token() {
    let mut req = IdentifyRequest::default();
    assert_eq!(req.op, 2);
    assert_eq!(req.d.token, "");
    req.token("abc");
    assert_eq!(req.d.token, "abc");
    assert_eq!(req.d.properties.os, "linux");
    assert_eq!(req.d.properties.browser, "homenis");
    assert_eq!(req.d.properties.device, "homenis");
}

#[test]
fn identify_encodes_to_schema() {
    let text = identify("my-token").encode();
    let v: serde_json::Value = serde_json::from_str(&text).unwrap();
    assert_eq!(v["op"].as_u64(), Some(2));
    assert_eq!(v["d"]["token"].as_str(), Some("my-token"));
    assert_eq!(v["d"]["properties"]["$os"].as_str(), Some("linux"));
    assert_eq!(v["d"]["properties"]["$browser"].as_str(), Some("homenis"));
    assert_eq!(v["d"]["properties"]["$device"].as_str(), Some("homenis"));
}

#[test]
fn identify_escapes_token() {
    let token = "a\"b\\c\nd\u{1f}é";
    let text = identify(token).encode();
    assert!(text.contains(r#""token":"a\"b\\c\u000ad\u001fé""#));
    let v: serde_json::Value = serde_json::from_str(&text).unwrap();
    assert_eq!(v["d"]["token"].as_str(), Some(token));
}

#[test]
fn json_helpers() {
    let mut out = String::new();
    push_decimal(&mut out, 0);
    out.push(' ');
    push_decimal(&mut out, 18446744073709551615);
    out.push(' ');
    push_json_string(&mut out, "");
    assert_eq!(out, "0 18446744073709551615 \"\"");
}

#[test]
fn heartbeat_frame() {
    let h = Heatbeat::new(Some(42));
    assert_eq!(h.op, 1);
    assert_eq!(h.d, Some(42));
    assert_eq!(h.encode(), r#"{"op":1,"d":42}"#);
}

#[test]
fn discord_urls() {
    let s = DiscordService::new("tok", "https://discordapp.com/api");
    assert_eq!(s.makeUrl("channels"), "https://discordapp.com/api/channels");
    assert_eq!(s.message_url("123"), "https://discordapp.com/api/channels/123/messages");
    assert_eq!(s.gateway_url(), "https://discordapp.com/api/gateway/bot");
    assert_eq!(s.authorization(), "Bot tok");
    let c = s.clone();
    assert_eq!(c.token, "tok");
    assert_eq!(DiscordPostMessage::new("hi".to_string()).content, "hi");
}

#[test]
fn application_state() {
    let st = HomenisState::new("secret".to_string());
    assert_eq!(st.token(), "secret");
    assert_eq!(st.discord.baseurl, "https://discordapp.com/api");
    assert_eq!(st.discord.token, "secret");
}

#[test]
fn dispatch_ignores_plain_text() {
    let d = DispatchService::new();
    assert!(matches!(d.parse_and_exec("hello"), Ok(DispatchState::Ignore)));
}

#[test]
fn dispatch_unknown_command() {
    let d = DispatchService::new();
    assert!(matches!(d.parse_and_exec("! ping"), Ok(DispatchState::NotFound)));
}

#[test]
fn dispatch_registered_command() {
    let mut d = DispatchService::new();
    assert_eq!(d.register(" pong".to_string()), 0);
    assert_eq!(d.register(" ping".to_string()), 1);
    match d.parse_and_exec("say ! ping") {
        Ok(DispatchState::Matched(i, body)) => {
            assert_eq!(i, 1);
            assert_eq!(body, "ping");
        },
        _ => panic!("expected a match"),
    }
}

#[test]
fn dispatch_needs_space_after_bang() {
    let d = DispatchService::new();
    assert!(matches!(d.parse_and_exec("!ping"), Ok(DispatchState::Ignore)));
}
