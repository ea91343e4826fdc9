use query_relay::cache::ClientCache;
use query_relay::query::check_escapes;
use query_relay::codec::{check_status, decode_records, decode_status, encode_command};
use query_relay::config::{Misc, RawQuery, Server, Telegram};
use query_relay::events::{classify_frame, classify_line, Notification};
use query_relay::frame::FrameReader;
use query_relay::observer::{Action, Observer, Phase};
use query_relay::records::{
    Client, FromQueryString, NotifyClientEnterView, NotifyClientLeftView, QueryError, QueryStatus,
    WebQueryStatus,
};
use query_relay::session::{login_command, select_server_command, RequestGate};
use query_relay::text::{chars_of, parse_i64, push_int};

const TEST_STRING: &str = "clid=8 cid=1 client_database_id=1 client_nickname=serveradmin client_type=1 client_unique_identifier=serveradmin";

#[test]
fn test() {
    let result = Client::from_query(TEST_STRING).unwrap();
    assert_eq!(result.client_id(), 8);
    assert_eq!(result.channel_id(), 1);
    assert_eq!(result.client_database_id(), 1);
    assert_eq!(result.client_nickname(), "serveradmin".to_string());
    assert_eq!(result.client_type(), 1);
    assert_eq!(result.client_unique_identifier(), "serveradmin".to_string());
}

#[test]
fn client_without_identifier_uses_database_id() {
    let c = Client::from_query("clid=3 cid=1 client_database_id=42 client_nickname=x client_type=0").unwrap();
    assert_eq!(c.client_unique_identifier(), "42");
}

#[test]
fn client_missing_field_is_error() {
    let e = Client::from_query("clid=3 cid=1").err().unwrap();
    assert_eq!(e.code(), -2);
}

#[test]
fn encode_login() {
    assert_eq!(login_command("serveradmin", "pw"), "login serveradmin pw\r\n");
    assert_eq!(select_server_command(1), "use 1\r\n");
    assert_eq!(select_server_command(-12), "use -12\r\n");
    assert_eq!(encode_command("clientlist", &vec![]), "clientlist\r\n");
}

#[test]
fn status_success_round_trip() {
    let cmd = encode_command("use", &vec!["1".to_string()]);
    assert_eq!(cmd, "use 1\r\n");
    let st = decode_status("error id=0 msg=ok\n\r").unwrap();
    assert_eq!(st.id(), 0);
    assert_eq!(st.msg(), "ok");
    assert!(check_status("error id=0 msg=ok\n\r").is_ok());
}

#[test]
fn records_round_trip() {
    let text = "clid=1 cid=2 client_database_id=3 client_nickname=Foo client_type=0|clid=4 cid=5 client_database_id=6 client_nickname=Bar\\sBaz client_type=1\n\rerror id=0 msg=ok\n\r";
    let v = decode_records::<Client>(text).unwrap().unwrap();
    assert_eq!(v.len(), 2);
    assert_eq!(v[0].client_id(), 1);
    assert_eq!(v[0].channel_id(), 2);
    assert_eq!(v[0].client_database_id(), 3);
    assert_eq!(v[0].client_nickname(), "Foo");
    assert_eq!(v[1].client_id(), 4);
    assert_eq!(v[1].client_nickname(), "Bar Baz");
    assert_eq!(v[1].client_type(), 1);
}

#[test]
fn failed_status_message_is_unescaped() {
    let e = check_status("error id=1024 msg=invalid\\sserverID\n\r").err().unwrap();
    assert_eq!(e.code(), 1024);
    assert_eq!(e.message(), "invalid serverID");
    assert_eq!(e.describe(), "invalid serverID(1024)");
    let e = decode_records::<Client>("clid=1\n\rerror id=512 msg=bad\\/path\n\r").err().unwrap();
    assert_eq!(e.code(), 512);
    assert_eq!(e.message(), "bad/path");
}

#[test]
fn status_only_response_has_no_records() {
    assert!(decode_records::<Client>("error id=0 msg=ok\n\r").unwrap().is_none());
}

#[test]
fn missing_status_line_is_error() {
    assert_eq!(decode_status("clid=1\n\r").err().unwrap().code(), -2);
    assert_eq!(decode_status("error msg=ok").err().unwrap().code(), -2);
}

#[test]
fn status_reductions() {
    let ok = QueryStatus::default();
    assert_eq!(QueryError::from(ok.clone()).code(), 0);
    assert_eq!(QueryStatus::from(WebQueryStatus { code: 3, message: "m".to_string() }).id(), 3);
    assert_eq!(ok.clone().into_result(5).unwrap(), 5);
    let st = WebQueryStatus { code: 7, message: "no".to_string() }.into_status();
    assert_eq!(st.id(), 7);
    let e = st.into_err();
    assert_eq!(e.code(), 7);
    assert_eq!(e.message(), "no");
    let empty = QueryError::static_empty_response();
    assert_eq!(empty.code(), -1);
    assert_eq!(empty.message(), "Expect result but none found.");
}

#[test]
fn cache_enter_then_leave_is_empty() {
    let mut c = ClientCache::new();
    assert!(c.on_enter(5, "Foo".to_string(), false).is_none());
    let e = c.on_left(5).unwrap();
    assert_eq!(e.nickname, "Foo");
    assert_eq!(c.len(), 0);
    assert!(c.on_left(9).is_none());
    assert_eq!(c.len(), 0);
}

#[test]
fn cache_seed_skips_privileged_and_duplicates() {
    let mut c = ClientCache::new();
    let a = Client::from_query("clid=1 cid=1 client_database_id=1 client_nickname=a client_type=0").unwrap();
    let b = Client::from_query("clid=2 cid=1 client_database_id=2 client_nickname=b client_type=1").unwrap();
    let a2 = Client::from_query("clid=1 cid=1 client_database_id=1 client_nickname=z client_type=0").unwrap();
    c.seed(&vec![a, b, a2], &vec![]);
    assert_eq!(c.len(), 1);
    assert_eq!(c.get(1).unwrap().nickname, "a");
    assert!(c.get(2).is_none());
}

#[test]
fn server_query_join_is_silent() {
    let mut c = ClientCache::new();
    let t = "T".to_string();
    let line = "notifycliententerview clid=3 client_nickname=bot client_unique_identifier=ServerQuery client_country=";
    assert!(classify_line(&mut c, &vec![], &t, line).unwrap().is_none());
    assert!(c.get(3).unwrap().ignored);
    let left = "notifyclientleftview clid=3 reasonmsg=bye";
    assert!(classify_line(&mut c, &vec![], &t, left).unwrap().is_none());
    assert!(c.get(3).is_none());
}

#[test]
fn ignore_list_nickname_is_silent() {
    let mut c = ClientCache::new();
    let t = "T".to_string();
    let list = vec!["Foo".to_string()];
    let frame = "notifycliententerview clid=5 client_nickname=Foo client_unique_identifier=abc client_country=US\n\rnotifyclientleftview clid=5 reasonid=8\n\r";
    assert_eq!(classify_frame(&mut c, &list, &t, frame).unwrap().len(), 0);
    assert_eq!(c.len(), 0);
}

#[test]
fn join_and_leave_are_reported() {
    let mut c = ClientCache::new();
    let t = "2024-01-01 00:00:00".to_string();
    let frame = "notifycliententerview clid=5 client_nickname=Foo client_unique_identifier=abc client_country=US\n\rnotifyclientleftview clid=5 reasonmsg=banned\n\rnotifyclientleftview clid=77\n\r";
    let v = classify_frame(&mut c, &vec![], &t, frame).unwrap();
    assert_eq!(v.len(), 2);
    assert_eq!(v[0].render(), "[2024-01-01 00:00:00] <b>Foo</b>(<code>abc</code>:5)[🇺🇸] joined");
    assert_eq!(v[1].render(), "[2024-01-01 00:00:00] <b>Foo</b>(5) left (banned)");
    assert_eq!(c.len(), 0);
}

#[test]
fn malformed_event_is_error() {
    let mut c = ClientCache::new();
    let t = "T".to_string();
    let r = classify_line(&mut c, &vec![], &t, "notifyclientleftview clid=x");
    assert_eq!(r.err().unwrap().code(), -2);
    assert!(classify_line(&mut c, &vec![], &t, "something else").unwrap().is_none());
}

#[test]
fn format_enter_literal() {
    let n = Notification::Enter("2024-01-01 00:00:00".to_string(), 5, "abc".to_string(), "Foo".to_string(), "US".to_string());
    assert_eq!(n.render(), "[2024-01-01 00:00:00] <b>Foo</b>(<code>abc</code>:5)[🇺🇸] joined");
}

#[test]
fn format_enter_unknown_country_uses_code() {
    let n = Notification::Enter("T".to_string(), 5, "abc".to_string(), "Foo".to_string(), "XX".to_string());
    assert_eq!(n.render(), "[T] <b>Foo</b>(<code>abc</code>:5)[XX] joined");
    assert_eq!(n.render_with_flag(Some("F".to_string())), "[T] <b>Foo</b>(<code>abc</code>:5)[F] joined");
}

#[test]
fn format_left_literals() {
    let n = Notification::Left("T".to_string(), 5, "Foo".to_string(), "".to_string());
    assert_eq!(n.render(), "[T] <b>Foo</b>(5) left");
    let n = Notification::Left("T".to_string(), 5, "Foo".to_string(), "banned".to_string());
    assert_eq!(n.render(), "[T] <b>Foo</b>(5) left (banned)");
}

#[test]
fn notification_constructors() {
    let e = NotifyClientEnterView::from_query("notifycliententerview clid=2 client_nickname=N client_unique_identifier=U client_country=DE").unwrap();
    assert_eq!(e.client_country(), "DE");
    assert_eq!(e.client_unique_identifier(), "U");
    let n = Notification::from_enter("T".to_string(), e);
    assert_eq!(n.render_with_flag(None), "[T] <b>N</b>(<code>U</code>:2)[DE] joined");
    let l = NotifyClientLeftView::from_query("notifyclientleftview clid=2").unwrap();
    assert_eq!(l.client_id(), 2);
    let l2 = decode_records::<NotifyClientLeftView>("clid=7 reasonmsg=a|clid=8\n\rerror id=0 msg=ok\n\r").unwrap().unwrap();
    assert_eq!(l2[0].reason(), "a");
    assert_eq!(l2[1].client_id(), 8);
    assert_eq!(l.reason(), "");
    let n = Notification::from_left("T".to_string(), &l, "N".to_string());
    assert_eq!(n.render(), "[T] <b>N</b>(2) left");
}

#[test]
fn timeout_yields_no_frame_and_keeps_partial() {
    let mut r = FrameReader::new();
    assert!(r.on_timeout().is_none());
    assert_eq!(r.pending, "");
    let chunk = vec![b'a'; 512];
    assert!(r.on_chunk(&chunk).is_none());
    assert_eq!(r.pending.len(), 512);
    assert!(r.on_timeout().is_none());
    assert_eq!(r.pending.len(), 512);
    let f = r.on_chunk(b"bc").unwrap();
    assert_eq!(f.len(), 514);
    assert_eq!(r.pending, "");
}

#[test]
fn full_chunk_with_status_ends_frame() {
    let mut r = FrameReader::new();
    let mut chunk = vec![b'x'; 512 - 19];
    chunk.extend_from_slice(b"error id=0 msg=ok\r\n");
    assert_eq!(chunk.len(), 512);
    assert!(r.on_chunk(&chunk).is_some());
    assert!(r.on_chunk(b"").is_none());
}

#[test]
fn gate_refuses_second_request() {
    let mut g = RequestGate::new();
    assert_eq!(g.begin("a\r\n".to_string()).unwrap(), "a\r\n");
    assert_eq!(g.begin("b\r\n".to_string()).err().unwrap().code(), -2);
    assert_eq!(g.complete(Some("r".to_string())).unwrap(), "r");
    let e = g.complete(None).err().unwrap();
    assert_eq!(e.code(), -3);
    assert_eq!(e.message(), "Return data is None");
    assert!(g.begin("b\r\n".to_string()).is_ok());
}

#[test]
fn observer_lifecycle() {
    let mut o = Observer::new(vec![]);
    assert!(matches!(o.start(), Action::Request(ref c) if c == "clientlist\r\n"));
    let listing = "clid=1 cid=1 client_database_id=1 client_nickname=a client_type=0\n\rerror id=0 msg=ok\n\r";
    assert!(matches!(o.on_listing(listing).unwrap(), Action::Request(ref c) if c == "servernotifyregister event=server\r\n"));
    assert!(matches!(o.on_subscribed("error id=0 msg=ok\n\r").unwrap(), Action::Tick));
    assert!(o.phase == Phase::Polling);
    let t = "T".to_string();
    assert!(matches!(o.on_frame(None, &t).unwrap(), Action::Tick));
    o.on_keepalive();
    assert!(matches!(o.on_frame(None, &t).unwrap(), Action::Probe(ref c) if c == "whoami\r\n"));
    let frame = Some("notifyclientleftview clid=1\n\r".to_string());
    match o.on_frame(frame, &t).unwrap() {
        Action::Deliver(v) => assert_eq!(v[0].render(), "[T] <b>a</b>(1) left"),
        _ => panic!("expected messages"),
    }
    assert!(matches!(o.on_tick(false), Action::Read));
    assert!(matches!(o.on_tick(true), Action::Logout(ref c) if c == "quit\r\n"));
    assert!(matches!(o.on_logged_out(), Action::Finish));
    assert!(matches!(o.on_logged_out(), Action::Stop));
    assert!(matches!(o.on_tick(true), Action::Stop));
    assert!(matches!(o.on_failure(), Action::Stop));
}

#[test]
fn listing_without_result_line_is_error() {
    let mut o = Observer::new(vec![]);
    assert_eq!(o.on_listing("error id=0 msg=ok\n\r").err().unwrap().code(), -1);
    assert_eq!(o.on_listing("error id=5 msg=no\n\r").err().unwrap().code(), 5);
    assert!(o.phase == Phase::Listing);
}

#[test]
fn integer_text_edges() {
    assert_eq!(parse_i64(&chars_of("9223372036854775807")), Some(i64::MAX));
    assert_eq!(parse_i64(&chars_of("-9223372036854775808")), Some(i64::MIN));
    assert_eq!(parse_i64(&chars_of("9223372036854775808")), None);
    assert_eq!(parse_i64(&chars_of("+12")), Some(12));
    assert_eq!(parse_i64(&chars_of("-")), None);
    assert_eq!(parse_i64(&chars_of("1a")), None);
    assert_eq!(parse_i64(&chars_of("")), None);
    let mut s = String::new();
    push_int(&mut s, i64::MIN);
    assert_eq!(s, "-9223372036854775808");
}

#[test]
fn config_defaults() {
    let q = RawQuery { server: None, port: None, user: "u".to_string(), password: "p".to_string() };
    assert_eq!(q.server(), "127.0.0.1");
    assert_eq!(q.port(), 10011);
    let s = Server { server_id: None, ignore_user: None };
    assert_eq!(s.server_id(), 1);
    assert!(s.ignore_user_name().is_empty());
    assert_eq!(Misc { interval: None }.interval(), 20);
    let t = Telegram { api_key: "k".to_string(), api_server: None, target: 3 };
    assert_eq!(t.api_server(), "https://api.telegram.org/");
}

#[test]
fn broken_escapes_are_decode_errors() {
    assert_eq!(Client::from_query("clid=1 k=a\\").err().unwrap().code(), -2);
    assert_eq!(check_status("error id=0 msg=a\\é\n\r").err().unwrap().code(), -2);
    assert_eq!(check_status("error id=0 k\\=v msg=ok").err().unwrap().code(), -2);
    assert!(check_escapes("msg=a\\sb\\\\"));
    assert!(!check_escapes("msg=a\\"));
    assert!(check_status("error id=0 msg=a\\sb\\\\").is_ok());
}

#[test]
fn seed_marks_ignored_clients() {
    let mut c = ClientCache::new();
    let a = Client::from_query("clid=1 cid=1 client_database_id=1 client_nickname=Foo client_type=0").unwrap();
    let b = Client::from_query("clid=2 cid=1 client_database_id=2 client_nickname=Bar client_type=0").unwrap();
    c.seed(&vec![a, b], &vec!["Foo".to_string()]);
    assert!(c.get(1).unwrap().ignored);
    assert!(!c.get(2).unwrap().ignored);
    let t = "T".to_string();
    assert!(classify_line(&mut c, &vec![], &t, "notifyclientleftview clid=1").unwrap().is_none());
}

#[test]
fn observer_errors_and_failure_drain() {
    let mut o = Observer::new(vec![]);
    let listing = "clid=1 cid=1 client_database_id=1 client_nickname=a client_type=0\n\rerror id=0 msg=ok\n\r";
    o.on_listing(listing).unwrap();
    let e = o.on_subscribed("error id=2568 msg=insufficient\\sclient\\spermissions\n\r").err().unwrap();
    assert_eq!(e.code(), 2568);
    assert_eq!(e.message(), "insufficient client permissions");
    assert!(o.phase == Phase::Subscribing);
    assert!(matches!(o.on_failure(), Action::Logout(ref c) if c == "quit\r\n"));
    assert!(matches!(o.on_failure(), Action::Finish));
    assert!(matches!(o.on_failure(), Action::Stop));
}
