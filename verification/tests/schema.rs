use command_channel::argument::{ArgValue, Argument};
use command_channel::command::Operation;
use command_channel::dispatcher::{CommandSchema, Dispatcher};
use command_channel::event::DownloadEvent;
use command_channel::schema::{event_variants, field, Field, ValueKind, Variant};
use command_channel::wire::{payload, DISCRIMINATOR_FIELD, PAYLOAD_FIELD};

fn named(name: &str, kind: ValueKind) -> Field {
    Field { name: name.to_string(), kind }
}

#[test]
fn event_schema_lists_the_three_variants() {
    assert_eq!(
        event_variants(),
        vec![
            Variant {
                tag: "started".to_string(),
                fields: vec![
                    named("url", ValueKind::Text),
                    named("sessionId", ValueKind::Number),
                    named("contentLength", ValueKind::Number),
                ],
            },
            Variant {
                tag: "progress".to_string(),
                fields: vec![
                    named("sessionId", ValueKind::Number),
                    named("chunkLength", ValueKind::Number),
                ],
            },
            Variant { tag: "finished".to_string(), fields: vec![named("sessionId", ValueKind::Number)] },
        ]
    );
    assert_eq!(field("url", ValueKind::Text), named("url", ValueKind::Text));
    assert_eq!(named("a", ValueKind::Flag).clone(), named("a", ValueKind::Flag));
}

#[test]
fn command_schema_is_read_off_the_registry() {
    let dispatcher = Dispatcher::standard();
    assert_eq!(
        dispatcher.schema(),
        vec![
            CommandSchema {
                name: "greet".to_string(),
                parameters: vec![named("name", ValueKind::Text)],
                streams: false,
                result: Some(ValueKind::Text),
            },
            CommandSchema {
                name: "download".to_string(),
                parameters: vec![named("url", ValueKind::Text)],
                streams: true,
                result: None,
            },
        ]
    );
    assert_eq!(Dispatcher::new().schema(), vec![]);
}

#[test]
fn operations_declare_their_shape() {
    assert_eq!(Operation::Greet.parameters(), vec![named("name", ValueKind::Text)]);
    assert_eq!(Operation::Download.parameters(), vec![named("url", ValueKind::Text)]);
    assert!(!Operation::Greet.is_streaming());
    assert!(Operation::Download.is_streaming());
    assert_eq!(Operation::Greet.result(), Some(ValueKind::Text));
    assert_eq!(Operation::Download.result(), None);
}

#[test]
fn payload_carries_the_fields_of_the_variant() {
    assert_eq!(DISCRIMINATOR_FIELD, "event");
    assert_eq!(PAYLOAD_FIELD, "data");
    let started =
        DownloadEvent::Started { url: "http://example/file".to_string(), session_id: 1, content_length: 1000 };
    assert_eq!(
        payload(&started),
        vec![
            Argument { name: "url".to_string(), value: ArgValue::Text("http://example/file".to_string()) },
            Argument { name: "sessionId".to_string(), value: ArgValue::Number(1) },
            Argument { name: "contentLength".to_string(), value: ArgValue::Number(1000) },
        ]
    );
    assert_eq!(
        payload(&DownloadEvent::Progress { session_id: 2, chunk_length: 15 }),
        vec![
            Argument { name: "sessionId".to_string(), value: ArgValue::Number(2) },
            Argument { name: "chunkLength".to_string(), value: ArgValue::Number(15) },
        ]
    );
    assert_eq!(
        payload(&DownloadEvent::Finished { session_id: 3 }),
        vec![Argument { name: "sessionId".to_string(), value: ArgValue::Number(3) }]
    );
}

#[test]
fn every_event_travels_as_its_variant_declares() {
    let variants = event_variants();
    let events = vec![
        DownloadEvent::Started { url: String::new(), session_id: 0, content_length: 0 },
        DownloadEvent::Progress { session_id: 0, chunk_length: 0 },
        DownloadEvent::Finished { session_id: 0 },
    ];
    for event in &events {
        let variant = variants.iter().find(|v| v.tag == event.tag()).unwrap();
        let fields = payload(event);
        assert_eq!(fields.len(), variant.fields.len());
        for (given, declared) in fields.iter().zip(variant.fields.iter()) {
            assert_eq!(given.name, declared.name);
            assert_eq!(given.value.kind(), Some(declared.kind));
        }
    }
}
