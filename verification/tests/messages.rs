use koco::instance::Instance;
use koco::json::{Json, JsonNumber};
use koco::rpc::{
    active_players_message, execute_action_message, item_message, properties_message,
    send_key_outcome, websocket_url,
};
use koco::session::{text_frame, Frame, NowPlaying, Session, Step};

fn s(text: &str) -> Json {
    Json::Str(text.to_string())
}

fn n(v: i64) -> Json {
    if v < 0 {
        Json::Number(JsonNumber::NegInt(v))
    } else {
        Json::Number(JsonNumber::PosInt(v as u64))
    }
}

fn obj(members: Vec<(&str, Json)>) -> Json {
    Json::Object(members.into_iter().map(|(k, v)| (k.to_string(), v)).collect())
}

fn time(h: i64, m: i64, sec: i64) -> Json {
    obj(vec![("hours", n(h)), ("minutes", n(m)), ("seconds", n(sec))])
}

fn instance(user: Option<&str>, pass: Option<&str>, events: bool) -> Instance {
    Instance {
        label: "L".to_string(),
        hostname: "kodi.local".to_string(),
        http_port: 8080,
        username: user.map(|x| x.to_string()),
        password: pass.map(|x| x.to_string()),
        events,
        events_port: 9777,
    }
}

fn is_compact_sorted_json(text: &str) -> bool {
    let v: serde_json::Value = serde_json::from_str(text).unwrap();
    v.to_string() == text
}

#[test]
fn request_texts() {
    assert_eq!(
        active_players_message(),
        r#"{"id":1,"jsonrpc":"2.0","method":"Player.GetActivePlayers"}"#
    );
    assert_eq!(
        properties_message(4, 1),
        r#"{"id":4,"jsonrpc":"2.0","method":"Player.GetProperties","params":{"playerid":1,"properties":["time","totaltime","percentage"]}}"#
    );
    assert_eq!(
        item_message(6, -3),
        r#"{"id":6,"jsonrpc":"2.0","method":"Player.GetItem","params":{"playerid":-3,"properties":["title","artist","album","duration","showtitle","season","episode"]}}"#
    );
    for text in [active_players_message(), properties_message(5, 0), item_message(2, 7)] {
        assert!(is_compact_sorted_json(&text), "{text}");
    }
}

#[test]
fn key_press_request() {
    assert_eq!(
        execute_action_message("up"),
        r#"{"id":1,"jsonrpc":"2.0","method":"Input.ExecuteAction","params":{"action":"up"}}"#
    );
    let tricky = execute_action_message("a\"b\\c\n");
    assert_eq!(
        tricky,
        r#"{"id":1,"jsonrpc":"2.0","method":"Input.ExecuteAction","params":{"action":"a\"b\\c\n"}}"#
    );
    assert!(is_compact_sorted_json(&tricky));
    let parsed: serde_json::Value = serde_json::from_str(&tricky).unwrap();
    assert_eq!(parsed["params"]["action"], "a\"b\\c\n");
}

#[test]
fn http_request_for_a_key() {
    let r = instance(Some("kodi"), Some("pw"), true).send_key_request("select");
    assert_eq!(r.url, "http://kodi.local:8080/jsonrpc");
    assert_eq!(r.basic_auth, Some(("kodi".to_string(), "pw".to_string())));
    assert!(r.body.contains(r#""action":"select""#));
    let r = instance(Some("kodi"), None, true).send_key_request("back");
    assert_eq!(r.basic_auth, None);
    let r = instance(None, Some("pw"), true).send_key_request("back");
    assert_eq!(r.basic_auth, None);
}

#[test]
fn key_press_outcomes() {
    assert_eq!(send_key_outcome(Ok((200, "200 OK".to_string()))), Ok(()));
    assert_eq!(send_key_outcome(Ok((204, "204 No Content".to_string()))), Ok(()));
    assert_eq!(
        send_key_outcome(Ok((401, "401 Unauthorized".to_string()))),
        Err("Request failed with status: 401 Unauthorized".to_string())
    );
    assert_eq!(
        send_key_outcome(Ok((199, "199".to_string()))),
        Err("Request failed with status: 199".to_string())
    );
    assert_eq!(
        send_key_outcome(Err("connection refused".to_string())),
        Err("Failed to send request: connection refused".to_string())
    );
}

#[test]
fn events_connection() {
    let (url, first) = instance(None, None, true).events_connection().unwrap();
    assert_eq!(url, "ws://kodi.local:9090/jsonrpc");
    assert_eq!(first, active_players_message());
    assert!(instance(None, None, false).events_connection().is_none());
    assert_eq!(websocket_url("h"), "ws://h:9090/jsonrpc");
}

fn handle(session: &mut Session, np: &mut NowPlaying, msg: Json) -> koco::session::Reply {
    match session.handle_frame(np, &Frame::Text(Some(msg))) {
        Step::Continue(r) => r,
        Step::Stop => panic!("stopped"),
    }
}

#[test]
fn play_notification_asks_for_times_and_item() {
    let mut session = Session::new();
    let mut np = NowPlaying::default();
    let msg = obj(vec![
        ("jsonrpc", s("2.0")),
        ("method", s("Player.OnPlay")),
        ("params", obj(vec![("data", obj(vec![("player", obj(vec![("playerid", n(1))]))]))])),
    ]);
    let r = handle(&mut session, &mut np, msg);
    assert!(np.playing);
    assert_eq!(session.player_id, Some(1));
    assert_eq!(r.requests, vec![properties_message(4, 1), item_message(2, 1)]);
    assert!(!r.reset_times);
    assert!(r.duration.is_none() && r.position.is_none());
}

#[test]
fn resume_without_player_uses_player_zero() {
    let mut session = Session::new();
    let mut np = NowPlaying::default();
    let r = handle(&mut session, &mut np, obj(vec![("method", s("Player.OnResume"))]));
    assert_eq!(session.player_id, Some(0));
    assert_eq!(r.requests, vec![properties_message(4, 0), item_message(2, 0)]);
}

#[test]
fn pause_and_stop() {
    let mut session = Session::new();
    let mut np = NowPlaying {
        title: "Song".to_string(),
        artist: "Band".to_string(),
        album: "LP".to_string(),
        playing: true,
    };
    let r = handle(&mut session, &mut np, obj(vec![("method", s("Player.OnPause"))]));
    assert!(!np.playing);
    assert_eq!(np.title, "Song");
    assert!(r.requests.is_empty() && !r.reset_times);
    let r = handle(&mut session, &mut np, obj(vec![("method", s("Player.OnStop"))]));
    assert!(r.reset_times);
    assert_eq!(np.title, "");
    assert_eq!(np.artist, "");
    assert_eq!(np.album, "");
    assert_eq!(np.window_title(), "Koco - Kodi Control");
    assert_eq!(session.player_id, None);
}

#[test]
fn item_reply_fills_the_information() {
    let mut session = Session::new();
    let mut np = NowPlaying::default();
    let item = obj(vec![
        ("album", s("Abbey Road")),
        ("artist", Json::Array(vec![s("The Beatles"), s("Other")])),
        ("label", s("Come Together (label)")),
        ("title", s("Come Together")),
    ]);
    let msg = obj(vec![("id", n(2)), ("result", obj(vec![("item", item)]))]);
    let r = handle(&mut session, &mut np, msg);
    assert_eq!(np.title, "Come Together");
    assert_eq!(np.artist, "The Beatles");
    assert_eq!(np.album, "Abbey Road");
    assert!(np.playing);
    assert!(r.requests.is_empty());
    assert_eq!(np.window_title(), "\u{25b6} Come Together - The Beatles - Koco");
}

#[test]
fn item_without_title_uses_its_label() {
    let mut session = Session::new();
    let mut np = NowPlaying::default();
    let item = obj(vec![("label", s("Episode 3")), ("title", s("")), ("artist", Json::Array(vec![]))]);
    handle(&mut session, &mut np, obj(vec![("result", obj(vec![("item", item)]))]));
    assert_eq!(np.title, "Episode 3");
    assert_eq!(np.artist, "");
    assert_eq!(np.album, "");
    np.playing = false;
    assert_eq!(np.window_title(), "\u{23f8} Episode 3 - Koco");
}

#[test]
fn property_reply_gives_times() {
    let mut session = Session::new();
    let mut np = NowPlaying::default();
    let result = obj(vec![
        ("percentage", Json::Number(JsonNumber::Float("12.5".to_string()))),
        ("time", time(0, 1, 30)),
        ("totaltime", time(1, 2, 3)),
    ]);
    let r = handle(&mut session, &mut np, obj(vec![("id", n(4)), ("result", result)]));
    let d = r.duration.unwrap();
    assert!(matches!(d.hours, Some(JsonNumber::PosInt(1))));
    assert!(matches!(d.minutes, Some(JsonNumber::PosInt(2))));
    assert!(matches!(d.seconds, Some(JsonNumber::PosInt(3))));
    let p = r.position.unwrap();
    assert!(matches!(p.minutes, Some(JsonNumber::PosInt(1))));
    assert!(np.playing);
    assert!(r.requests.is_empty());
}

#[test]
fn position_member_is_used_without_time() {
    let mut session = Session::new();
    let mut np = NowPlaying::default();
    let result = obj(vec![("position", obj(vec![("seconds", s("7"))]))]);
    let r = handle(&mut session, &mut np, obj(vec![("result", result)]));
    let p = r.position.unwrap();
    assert!(p.seconds.is_none());
    assert!(np.playing);
    assert!(r.duration.is_none());
}

#[test]
fn active_player_list() {
    let mut session = Session::new();
    let mut np = NowPlaying::default();
    let players = Json::Array(vec![obj(vec![("playerid", n(1)), ("type", s("audio"))])]);
    let r = handle(&mut session, &mut np, obj(vec![("id", n(1)), ("result", players)]));
    assert_eq!(session.player_id, Some(1));
    assert_eq!(r.requests, vec![properties_message(5, 1), item_message(6, 1)]);
    assert!(!np.playing);

    let r = handle(&mut session, &mut np, obj(vec![("result", Json::Array(vec![]))]));
    assert!(r.requests.is_empty());
    assert_eq!(session.player_id, Some(1));

    let far = Json::Array(vec![obj(vec![("playerid", Json::Number(JsonNumber::PosInt(u64::MAX)))])]);
    let r = handle(&mut session, &mut np, obj(vec![("result", far)]));
    assert!(r.requests.is_empty());
}

#[test]
fn other_frames() {
    let mut session = Session::new();
    let mut np = NowPlaying::default();
    assert!(matches!(session.handle_frame(&mut np, &Frame::Close), Step::Stop));
    assert!(matches!(session.handle_frame(&mut np, &Frame::Failed), Step::Stop));
    match session.handle_frame(&mut np, &Frame::Other) {
        Step::Continue(r) => assert!(r.requests.is_empty()),
        Step::Stop => panic!("stopped"),
    }
    match session.handle_frame(&mut np, &Frame::Text(None)) {
        Step::Continue(r) => assert!(r.requests.is_empty() && !r.reset_times),
        Step::Stop => panic!("stopped"),
    }
}

#[test]
fn error_replies_change_nothing() {
    let mut session = Session::new();
    let mut np = NowPlaying::default();
    let msg = obj(vec![("error", obj(vec![("code", n(-32602))])), ("id", n(2))]);
    let r = handle(&mut session, &mut np, msg);
    assert!(r.requests.is_empty());
    assert_eq!(np.title, "");
    assert!(!np.playing);
}

#[test]
fn json_lookups() {
    let v = obj(vec![("a", n(5)), ("a", n(6)), ("b", s("x")), ("c", n(-1))]);
    assert!(matches!(v.get("a").and_then(|j| j.as_i64()), Some(5)));
    assert_eq!(v.get("b").and_then(|j| j.as_str()).map(|t| t.as_str()), Some("x"));
    assert_eq!(v.get("c").and_then(|j| j.as_i64()), Some(-1));
    assert!(v.get("z").is_none());
    assert!(s("x").get("a").is_none());
    assert!(Json::Number(JsonNumber::PosInt(u64::MAX)).as_i64().is_none());
    assert!(Json::Array(vec![Json::Null]).as_array().unwrap().len() == 1);
}

#[test]
fn control_characters_are_escaped() {
    assert_eq!(
        execute_action_message("\u{1}\t\u{8}\u{c}\r\u{1f}\u{7f}é"),
        "{\"id\":1,\"jsonrpc\":\"2.0\",\"method\":\"Input.ExecuteAction\",\"params\":{\"action\":\"\\u0001\\t\\b\\f\\r\\u001f\u{7f}é\"}}"
    );
}

#[test]
fn text_frames_are_parsed() {
    match text_frame(r#"{"method":"Player.OnPause","id":3,"params":{"x":[1.5,-2,18446744073709551615,null,true]}}"#) {
        Frame::Text(Some(Json::Object(members))) => {
            let keys: Vec<&str> = members.iter().map(|(k, _)| k.as_str()).collect();
            assert_eq!(keys, vec!["id", "method", "params"]);
            assert!(matches!(members[0].1, Json::Number(JsonNumber::PosInt(3))));
            assert!(matches!(&members[1].1, Json::Str(m) if m == "Player.OnPause"));
            match &members[2].1 {
                Json::Object(p) => match &p[0].1 {
                    Json::Array(xs) => {
                        assert!(matches!(&xs[0], Json::Number(JsonNumber::Float(t)) if t == "1.5"));
                        assert!(matches!(xs[1], Json::Number(JsonNumber::NegInt(-2))));
                        assert!(matches!(xs[2], Json::Number(JsonNumber::PosInt(u64::MAX))));
                        assert!(matches!(xs[3], Json::Null));
                        assert!(matches!(xs[4], Json::Bool(true)));
                    }
                    _ => panic!("not an array"),
                },
                _ => panic!("not an object"),
            }
        }
        _ => panic!("not parsed"),
    }
    assert!(matches!(text_frame("not json"), Frame::Text(None)));
    assert!(matches!(text_frame(""), Frame::Text(None)));
}

#[test]
fn parsed_notification_drives_the_session() {
    let mut session = Session::new();
    let mut np = NowPlaying::default();
    let frame = text_frame(r#"{"jsonrpc":"2.0","method":"Player.OnPlay","params":{"data":{"player":{"playerid":1}}}}"#);
    match session.handle_frame(&mut np, &frame) {
        Step::Continue(r) => assert_eq!(r.requests, vec![properties_message(4, 1), item_message(2, 1)]),
        Step::Stop => panic!("stopped"),
    }
    assert!(np.playing);
}
