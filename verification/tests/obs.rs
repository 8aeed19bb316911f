use lol_clip_tool::obs::{
    command_message, handshake_step, identify_message, obs_authentication, obs_url, quote_json,
    record_directory_message, request_message, request_response, HandshakeStage, ObsIncoming,
};
use lol_clip_tool::status::ObsRequest;

#[test]
fn identify_message_text() {
    assert_eq!(identify_message(None), r#"{"d":{"authentication":null,"rpcVersion":1},"op":1}"#);
    assert_eq!(
        identify_message(Some("abc=")),
        r#"{"d":{"authentication":"abc=","rpcVersion":1},"op":1}"#
    );
}

#[test]
fn obs_url_uses_the_port() {
    assert_eq!(obs_url(4455), "ws://127.0.0.1:4455");
    assert_eq!(obs_url(80), "ws://127.0.0.1:80");
    assert_eq!(obs_url(0), "ws://127.0.0.1:0");
    assert_eq!(obs_url(65535), "ws://127.0.0.1:65535");
}

const HELLO_WITH_AUTH: &str = r#"{"op":0,"d":{"obsWebSocketVersion":"5.1.0","rpcVersion":1,"authentication":{"challenge":"+IxH4CnCiqpX1rM9scsNynZzbOe4KhDeYcTNS3PDaeY=","salt":"lM1GncleQOaCu9lT1yeUZhFYnqhsLLP1G5lAGo3ixaI="}}}"#;

#[test]
fn authentication_string_of_the_protocol_example() {
    let auth = obs_authentication(
        "supersecretpassword",
        "lM1GncleQOaCu9lT1yeUZhFYnqhsLLP1G5lAGo3ixaI=",
        "+IxH4CnCiqpX1rM9scsNynZzbOe4KhDeYcTNS3PDaeY=",
    );
    assert_eq!(auth, "1Ct943GAT+6YQUUX47Ia/ncufilbe6+oD6lY+5kaCu4=");
}

#[test]
fn hello_asking_for_authentication_is_answered_with_it() {
    let hello = ObsIncoming::Text(HELLO_WITH_AUTH.to_string());
    let (stage, send) =
        handshake_step(HandshakeStage::AwaitHello, &hello, Some("supersecretpassword")).unwrap();
    assert_eq!(stage, HandshakeStage::AwaitIdentified);
    assert_eq!(
        send.unwrap(),
        r#"{"d":{"authentication":"1Ct943GAT+6YQUUX47Ia/ncufilbe6+oD6lY+5kaCu4=","rpcVersion":1},"op":1}"#
    );
}

#[test]
fn hello_asking_for_authentication_without_a_password() {
    let hello = ObsIncoming::Text(HELLO_WITH_AUTH.to_string());
    let (_, send) = handshake_step(HandshakeStage::AwaitHello, &hello, None).unwrap();
    assert_eq!(send, Some(identify_message(None)));
}

#[test]
fn password_is_not_sent_when_obs_does_not_ask() {
    let hello = ObsIncoming::Text(r#"{"op":0,"d":{"rpcVersion":1}}"#.to_string());
    let (_, send) = handshake_step(HandshakeStage::AwaitHello, &hello, Some("pw")).unwrap();
    assert_eq!(send, Some(identify_message(None)));
}

#[test]
fn command_messages() {
    assert_eq!(
        command_message(ObsRequest::StartRecord),
        r#"{"d":{"requestId":"tauri-lol-obs-001","requestType":"StartRecord"},"op":6}"#
    );
    assert_eq!(
        command_message(ObsRequest::SaveReplayBuffer),
        r#"{"d":{"requestId":"tauri-lol-obs-001","requestType":"SaveReplayBuffer"},"op":6}"#
    );
    assert_eq!(
        request_message("GetRecordStatus", "id-7"),
        r#"{"d":{"requestId":"id-7","requestType":"GetRecordStatus"},"op":6}"#
    );
}

#[test]
fn record_directory_message_escapes_the_path() {
    assert_eq!(
        record_directory_message("/Users/me/Movies"),
        r#"{"d":{"requestData":{"recordDirectory":"/Users/me/Movies"},"requestId":"tauri-lol-obs-002","requestType":"SetRecordDirectory"},"op":6}"#
    );
    let m = record_directory_message("C:\\clips \"new\"\n");
    assert!(m.contains(r#""recordDirectory":"C:\\clips \"new\"\n""#));
}

#[test]
fn json_strings_escape_controls() {
    assert_eq!(quote_json("a\u{1}b\tc\u{8}\u{c}\r/é"), "\"a\\u0001b\\tc\\b\\f\\r/é\"");
    assert_eq!(quote_json("\u{1f}"), "\"\\u001f\"");
    let v: serde_json::Value = serde_json::from_str(&record_directory_message("x\"y\\z")).unwrap();
    assert_eq!(v["d"]["requestData"]["recordDirectory"], "x\"y\\z");
}

#[test]
fn handshake_succeeds_on_hello_and_identified() {
    let hello = ObsIncoming::Text(r#"{"op":0,"d":{"obsWebSocketVersion":"5.0.0","rpcVersion":1}}"#.to_string());
    let (stage, send) = handshake_step(HandshakeStage::AwaitHello, &hello, None).unwrap();
    assert_eq!(stage, HandshakeStage::AwaitIdentified);
    assert_eq!(send, Some(identify_message(None)));
    let identified = ObsIncoming::Text(r#"{"op":2,"d":{"negotiatedRpcVersion":1}}"#.to_string());
    let (stage, send) = handshake_step(stage, &identified, None).unwrap();
    assert_eq!(stage, HandshakeStage::Identified);
    assert_eq!(send, None);
    let (stage, send) = handshake_step(stage, &ObsIncoming::Other, None).unwrap();
    assert_eq!((stage, send), (HandshakeStage::Identified, None));
}

#[test]
fn handshake_errors() {
    let wrong = ObsIncoming::Text(r#"{"op":2}"#.to_string());
    assert_eq!(handshake_step(HandshakeStage::AwaitHello, &wrong, None).err().unwrap(), "No Hello from OBS");
    let negative = ObsIncoming::Text(r#"{"op":-1}"#.to_string());
    assert_eq!(
        handshake_step(HandshakeStage::AwaitIdentified, &negative, None).err().unwrap(),
        "No Identified from OBS"
    );
    let no_op = ObsIncoming::Text("{}".to_string());
    assert_eq!(handshake_step(HandshakeStage::AwaitHello, &no_op, None).err().unwrap(), "No Hello from OBS");
    assert_eq!(
        handshake_step(HandshakeStage::AwaitHello, &ObsIncoming::Other, None).err().unwrap(),
        "Failed to receive Hello"
    );
    assert_eq!(
        handshake_step(HandshakeStage::AwaitIdentified, &ObsIncoming::Other, None).err().unwrap(),
        "Failed to receive Identified"
    );
    let junk = ObsIncoming::Text("not json".to_string());
    let e = handshake_step(HandshakeStage::AwaitHello, &junk, None).err().unwrap();
    assert_eq!(e, "expected ident at line 1 column 2");
}

#[test]
fn request_answers_are_read() {
    let ok = ObsIncoming::Text(r#"{"op":7,"d":{"requestStatus":{"result":true,"code":100}}}"#.to_string());
    let v = request_response(&ok).unwrap();
    assert_eq!(v["op"].as_u64(), Some(7));
    assert_eq!(v["d"]["requestStatus"]["code"].as_u64(), Some(100));
    assert_eq!(request_response(&ObsIncoming::Other).err().unwrap(), "No response");
    let junk = ObsIncoming::Text("not json".to_string());
    assert_eq!(request_response(&junk).err().unwrap(), "expected ident at line 1 column 2");
}
