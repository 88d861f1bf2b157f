use boar_bot::engine::{Engine, Module};
use boar_bot::event::{Action, Event};
use boar_bot::handler::echo::EchoHandler;
use boar_bot::handler::logger::LoggingHandler;
use boar_bot::handler::RegisteredModule;
use boar_bot::store::{
    decode_identity, decode_token, encode_identity, encode_token, load_or_create_identity,
    load_token, DeviceIdentity, SessionToken, StoreError,
};

fn sample_identity() -> DeviceIdentity {
    DeviceIdentity::from_random_material(vec![10, 20, 30], vec![4, 5], vec![6, 7, 8, 9]).unwrap()
}

#[test]
fn identity_round_trip_is_identical() {
    let d = sample_identity();
    let bytes = encode_identity(&d);
    let back = decode_identity(&bytes).expect("a serialized identity must reload");
    assert_eq!(back.android_id, d.android_id);
    assert_eq!(back.imei, d.imei);
    assert_eq!(back.seed, d.seed);
}

#[test]
fn identity_bytes_are_length_prefixed_little_endian() {
    let d = DeviceIdentity::from_random_material(vec![1, 2], vec![3], vec![]).unwrap();
    let bytes = encode_identity(&d);
    assert_eq!(
        bytes,
        vec![2, 0, 0, 0, 1, 2, 1, 0, 0, 0, 3, 0, 0, 0, 0]
    );
}

#[test]
fn token_round_trip_is_identical() {
    let t = SessionToken {
        uin: 0x0123_4567_89ab_cdef,
        credential: vec![42; 300],
    };
    let bytes = encode_token(&t);
    let back = decode_token(&bytes).expect("a serialized token must reload");
    assert_eq!(back.uin, t.uin);
    assert_eq!(back.credential, t.credential);
}

#[test]
fn token_bytes_are_length_prefixed_little_endian() {
    let t = SessionToken {
        uin: 0x0102,
        credential: vec![7],
    };
    assert_eq!(
        encode_token(&t),
        vec![2, 1, 0, 0, 0, 0, 0, 0, 1, 0, 0, 0, 7]
    );
}

#[test]
fn truncated_identity_is_malformed() {
    let d = sample_identity();
    let mut bytes = encode_identity(&d);
    bytes.pop();
    assert!(decode_identity(&bytes).is_none());
}

#[test]
fn trailing_bytes_make_identity_malformed() {
    let d = sample_identity();
    let mut bytes = encode_identity(&d);
    bytes.push(0);
    assert!(decode_identity(&bytes).is_none());
}

#[test]
fn corrupt_identity_file_is_fatal() {
    let bad = vec![255, 255, 255, 255, 0];
    let r = load_or_create_identity(Some(&bad), sample_identity());
    assert!(matches!(r, Err(StoreError::CorruptIdentity)));
}

#[test]
fn absent_identity_file_generates_and_persists() {
    let fresh = sample_identity();
    let expected = encode_identity(&fresh);
    let (loaded, to_persist) =
        load_or_create_identity(None, fresh).expect("absent file is no error");
    assert_eq!(loaded.android_id, vec![10, 20, 30]);
    assert_eq!(to_persist, Some(expected));
}

#[test]
fn existing_identity_file_is_loaded_unchanged() {
    let d = sample_identity();
    let bytes = encode_identity(&d);
    let other =
        DeviceIdentity::from_random_material(vec![0], vec![0], vec![0]).unwrap();
    let (loaded, to_persist) =
        load_or_create_identity(Some(&bytes), other).expect("a valid file loads");
    assert_eq!(loaded.android_id, d.android_id);
    assert_eq!(loaded.imei, d.imei);
    assert_eq!(loaded.seed, d.seed);
    assert_eq!(to_persist, None, "nothing is rewritten on a normal load");
}

#[test]
fn absent_token_file_is_not_an_error() {
    assert!(matches!(load_token(None), Ok(None)));
}

#[test]
fn corrupt_token_file_is_fatal() {
    let bad = vec![1, 2, 3];
    assert!(matches!(load_token(Some(&bad)), Err(StoreError::CorruptToken)));
}

#[test]
fn stored_token_file_is_loaded() {
    let t = SessionToken {
        uin: 99,
        credential: vec![8, 8],
    };
    let bytes = encode_token(&t);
    let loaded = load_token(Some(&bytes)).unwrap().unwrap();
    assert_eq!(loaded.uin, 99);
    assert_eq!(loaded.credential, vec![8, 8]);
}

fn two_module_engine() -> Engine<RegisteredModule> {
    Engine::default()
        .register_module(RegisteredModule::Logger(LoggingHandler))
        .register_module(RegisteredModule::Echo(EchoHandler))
}

#[test]
fn module_names_are_stable() {
    assert_eq!(EchoHandler.get_name(), "echo");
    assert_eq!(LoggingHandler.get_name(), "logger");
    assert_eq!(RegisteredModule::Echo(EchoHandler).get_name(), "echo");
}

#[test]
fn every_module_observes_the_event_in_registration_order() {
    let engine = two_module_engine();
    let e = Event::FriendMessage {
        from_uin: 12,
        elements: String::from("hi"),
    };
    let actions = engine.handle(&e);
    assert_eq!(
        actions,
        vec![
            Action::LogFriendMessage {
                from_uin: 12,
                elements: String::from("hi"),
            },
            Action::SendFriendMessage {
                target: 12,
                elements: String::from("hi"),
            },
        ]
    );
}

#[test]
fn silent_module_does_not_stop_later_modules() {
    let engine = Engine::default()
        .register_module(RegisteredModule::Echo(EchoHandler))
        .register_module(RegisteredModule::Logger(LoggingHandler));
    let e = Event::GroupMessage {
        group_code: 5,
        elements: String::from("yo"),
    };
    let actions = engine.handle(&e);
    assert_eq!(
        actions,
        vec![Action::LogGroupMessage {
            group_code: 5,
            elements: String::from("yo"),
        }]
    );
}

#[test]
fn logger_covers_every_recognized_event() {
    let logger = LoggingHandler;
    let cases = vec![
        Event::GroupMessage {
            group_code: 1,
            elements: String::from("a"),
        },
        Event::FriendMessage {
            from_uin: 2,
            elements: String::from("b"),
        },
        Event::GroupTempMessage {
            from_uin: 3,
            elements: String::from("c"),
        },
        Event::GroupRequest {
            group_code: 4,
            req_uin: 5,
            message: String::from("d"),
        },
        Event::NewFriendRequest {
            req_uin: 6,
            message: String::from("e"),
        },
    ];
    for e in &cases {
        assert_eq!(logger.handle(e).len(), 1);
    }
    assert!(logger.handle(&Event::Unrecognized).is_empty());
}

#[test]
fn echo_replies_only_to_direct_messages() {
    let echo = EchoHandler;
    let reply = echo.handle(&Event::FriendMessage {
        from_uin: 77,
        elements: String::from("ping"),
    });
    assert_eq!(
        reply,
        vec![Action::SendFriendMessage {
            target: 77,
            elements: String::from("ping"),
        }]
    );
    assert!(echo
        .handle(&Event::GroupMessage {
            group_code: 1,
            elements: String::from("x"),
        })
        .is_empty());
    assert!(echo.handle(&Event::Unrecognized).is_empty());
}
