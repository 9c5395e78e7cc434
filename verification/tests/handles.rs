use into_into_dart::{DartOpaque, DartSafe, IntoIntoDart, RustOpaque};

/// A payload that cannot be copied, so a handle that shows it still refers to
/// the value it was made with.
#[derive(Debug, PartialEq)]
struct Session {
    user: String,
    visits: u32,
}

impl DartSafe for Session {}

#[test]
fn a_new_handle_refers_to_its_payload() {
    let handle: RustOpaque<u32> = RustOpaque::new(77u32);
    assert_eq!(*handle.payload(), 77u32);
}

#[test]
fn a_shared_handle_crosses_with_its_payload() {
    let handle: RustOpaque<Session> = RustOpaque::new(Session { user: "ada".to_string(), visits: 3 });
    let converted: RustOpaque<Session> = handle.into_into_dart();
    assert_eq!(*converted.payload(), Session { user: "ada".to_string(), visits: 3 });
}

#[test]
fn a_shared_handle_keeps_the_place_of_its_payload() {
    let handle: RustOpaque<Session> = RustOpaque::new(Session { user: "bob".to_string(), visits: 0 });
    let before: String = format!("{:p}", handle.payload());
    let converted: RustOpaque<Session> = handle.into_into_dart();
    assert_eq!(format!("{:p}", converted.payload()), before);
}

#[test]
fn a_dart_handle_crosses_with_its_number() {
    let opaque: DartOpaque = DartOpaque::new(0xdead_beefusize);
    assert_eq!(opaque.handle(), 0xdead_beefusize);
    let converted: DartOpaque = opaque.into_into_dart();
    assert_eq!(converted.handle(), 0xdead_beefusize);
}

#[test]
fn a_sequence_of_optional_pairs_of_handles_converts() {
    let source: Vec<Option<(RustOpaque<Session>, RustOpaque<String>)>> = vec![
        Some((
            RustOpaque::new(Session { user: "eve".to_string(), visits: 9 }),
            RustOpaque::new("first".to_string()),
        )),
        None,
        Some((
            RustOpaque::new(Session { user: "dan".to_string(), visits: 1 }),
            RustOpaque::new("third".to_string()),
        )),
    ];
    let places: Vec<Option<(String, String)>> = source
        .iter()
        .map(|item| item.as_ref().map(|(a, b)| (format!("{:p}", a.payload()), format!("{:p}", b.payload()))))
        .collect();

    let converted: Vec<Option<(RustOpaque<Session>, RustOpaque<String>)>> = source.into_into_dart();

    assert_eq!(converted.len(), 3);
    match &converted[0] {
        Some((session, text)) => {
            assert_eq!(*session.payload(), Session { user: "eve".to_string(), visits: 9 });
            assert_eq!(*text.payload(), "first".to_string());
        }
        None => panic!("the first item was present"),
    }
    assert!(converted[1].is_none());
    match &converted[2] {
        Some((session, text)) => {
            assert_eq!(*session.payload(), Session { user: "dan".to_string(), visits: 1 });
            assert_eq!(*text.payload(), "third".to_string());
        }
        None => panic!("the third item was present"),
    }
    let places_after: Vec<Option<(String, String)>> = converted
        .iter()
        .map(|item| item.as_ref().map(|(a, b)| (format!("{:p}", a.payload()), format!("{:p}", b.payload()))))
        .collect();
    assert_eq!(places_after, places);
}

#[test]
fn a_box_around_a_handle_gives_the_handle() {
    let boxed: Box<RustOpaque<u8>> = Box::new(RustOpaque::new(5u8));
    let converted: RustOpaque<u8> = boxed.into_into_dart();
    assert_eq!(*converted.payload(), 5u8);
}
