use cylonn::json::Field;
use cylonn::listener::{create, handle, socket_path, Acceptor, Builder, Event, Message, Template};
use rustc_serialize::json::Json;

#[test]
fn builder_stamps_the_client_id() {
    let b = Builder::new(7);
    assert_eq!(b.client_id(), 7);
    let m: Message<()> = b.line("hello\n".to_string());
    assert_eq!(m.client_id, 7);
    assert!(matches!(m.event, Event::Line(ref l) if l == "hello\n"));
    let s: Message<&str> = b.stream("socket");
    assert_eq!(s.client_id, 7);
    assert!(matches!(s.event, Event::Stream("socket")));
    let e: Message<u8> = b.message(Event::Stream(3));
    assert_eq!(e.client_id, 7);
    assert!(matches!(e.event, Event::Stream(3)));
}

#[test]
fn handle_wraps_events_and_stops_at_the_end() {
    let first = handle(4, Some(Event::Stream("conn"))).unwrap();
    assert_eq!(first.client_id, 4);
    assert!(matches!(first.event, Event::Stream("conn")));
    let line = handle::<&str>(4, Some(Event::Line("x".to_string()))).unwrap();
    assert_eq!(line.client_id, 4);
    assert!(matches!(line.event, Event::Line(ref l) if l == "x"));
    assert!(handle::<&str>(4, None).is_none());
}

#[test]
fn ids_start_at_zero_and_grow_by_one() {
    let mut a = Acceptor::new();
    for expected in 0..1000u32 {
        assert_eq!(a.accept().unwrap().client_id(), expected);
    }
}

#[test]
fn socket_path_is_under_tmp() {
    assert_eq!(socket_path("abc"), "/tmp/abc.sock");
    assert_eq!(socket_path(""), "/tmp/.sock");
}

#[test]
fn create_gives_a_fresh_path_each_time() {
    let a = create();
    let b = create();
    assert_ne!(a, b);
    for path in [a, b] {
        assert!(path.starts_with("/tmp/"));
        assert!(path.ends_with(".sock"));
        let name = &path[5..path.len() - 5];
        assert_eq!(name.len(), 32);
        assert!(name.chars().all(|c| matches!(c, '0'..='9' | 'a'..='f')));
    }
}

#[test]
fn template_needs_id_kind_and_params() {
    let json = Json::from_str("{\"id\":\"irc\",\"kind\":\"hello\",\"params\":[1,2]}").unwrap();
    let t = Template::from_json(&json).unwrap();
    assert_eq!(t.id, "irc");
    assert_eq!(t.kind, "hello");
    assert!(matches!(t.params, Field::Other));
    let with_object = Json::from_str("{\"id\":\"irc\",\"kind\":\"hello\",\"params\":{}}").unwrap();
    assert!(matches!(Template::from_json(&with_object).unwrap().params, Field::Object(_)));
    for bad in [
        "{\"kind\":\"hello\",\"params\":{}}",
        "{\"id\":\"irc\",\"params\":{}}",
        "{\"id\":\"irc\",\"kind\":\"hello\"}",
        "{\"id\":1,\"kind\":\"hello\",\"params\":{}}",
        "{\"id\":\"irc\",\"kind\":null,\"params\":{}}",
        "[]",
    ] {
        let json = Json::from_str(bad).unwrap();
        assert!(Template::from_json(&json).is_none(), "{}", bad);
    }
}

#[test]
fn template_from_plain_fields() {
    let t = Template::from_fields(
        Some(Field::String("a")),
        Some(Field::String("b")),
        Some(Field::Null),
    )
    .unwrap();
    assert_eq!((t.id, t.kind), ("a", "b"));
    assert!(Template::from_fields(Some(Field::String("a")), Some(Field::String("b")), None).is_none());
    assert!(Template::from_fields(Some(Field::Null), Some(Field::String("b")), Some(Field::Null))
        .is_none());
}
