use merrymake_service_library::framing::read_next_chunk;
use merrymake_service_library::{
    broadcast_to_channel, join_channel, post_event_to_rapids, post_str_to_rapids, post_to_rapids,
    reply_str_to_origin, reply_to_origin, select_transport, Config, Headers, MimeType,
    OutboundRequest, Transport, TransportError,
};

fn tcp_config() -> Config {
    Config { endpoint: Some("queue:1234".to_string()), mode: Transport::Tcp }
}

fn http_config() -> Config {
    Config { endpoint: Some("http://queue".to_string()), mode: Transport::Http }
}

fn no_endpoint(mode: Transport) -> Config {
    Config { endpoint: None, mode }
}

fn chunks_of(frame: &[u8]) -> Vec<Vec<u8>> {
    let mut offset = 0;
    let mut chunks = Vec::new();
    while offset < frame.len() {
        let (chunk, next) = read_next_chunk(frame, offset).unwrap();
        chunks.push(chunk);
        offset = next;
    }
    chunks
}

#[test]
fn select_transport_counts_arguments() {
    let none: Vec<String> = vec![];
    let one = vec!["a".to_string()];
    let two = vec!["a".to_string(), "b".to_string()];
    let three = vec!["a".to_string(), "b".to_string(), "c".to_string()];
    assert_eq!(select_transport(&none), Transport::Http);
    assert_eq!(select_transport(&one), Transport::Http);
    assert_eq!(select_transport(&two), Transport::Tcp);
    assert_eq!(select_transport(&three), Transport::Http);
}

#[test]
fn posts_fail_without_endpoint_before_any_network_step() {
    for mode in [Transport::Http, Transport::Tcp] {
        let config = no_endpoint(mode);
        assert!(matches!(
            post_to_rapids(&config, "ev", b"b", None),
            Err(TransportError::MissingConfig)
        ));
        assert!(matches!(
            post_str_to_rapids(&config, "ev", "b"),
            Err(TransportError::MissingConfig)
        ));
        assert!(matches!(
            post_event_to_rapids(&config, "ev"),
            Err(TransportError::MissingConfig)
        ));
        assert!(matches!(
            reply_to_origin(&config, b"b", &Headers { content_type: MimeType::txt() }),
            Err(TransportError::MissingConfig)
        ));
        assert!(matches!(
            reply_str_to_origin(&config, "b"),
            Err(TransportError::MissingConfig)
        ));
        assert!(matches!(
            join_channel(&config, "chan"),
            Err(TransportError::MissingConfig)
        ));
        assert!(matches!(
            broadcast_to_channel(&config, "chan", "ev", "p"),
            Err(TransportError::MissingConfig)
        ));
    }
}

#[test]
fn tcp_post_frames_event_and_body() {
    let request = post_to_rapids(&tcp_config(), "ev", b"hi", None).unwrap();
    match request {
        OutboundRequest::Tcp { address, frame } => {
            assert_eq!(address, "queue:1234");
            assert_eq!(frame, vec![0, 0, 2, b'e', b'v', 0, 0, 2, b'h', b'i']);
        }
        other => panic!("expected a TCP request, got {:?}", other),
    }
}

#[test]
fn http_post_targets_endpoint_slash_event() {
    let request =
        post_to_rapids(&http_config(), "ev", b"hi", Some(MimeType::new("text/html"))).unwrap();
    match request {
        OutboundRequest::Http { url, content_type, body } => {
            assert_eq!(url, "http://queue/ev");
            assert_eq!(content_type.unwrap().as_str(), "text/html");
            assert_eq!(body, b"hi".to_vec());
        }
        other => panic!("expected an HTTP request, got {:?}", other),
    }
}

#[test]
fn post_str_sends_utf8_bytes_without_content_type() {
    match post_str_to_rapids(&http_config(), "ev", "héllo").unwrap() {
        OutboundRequest::Http { url, content_type, body } => {
            assert_eq!(url, "http://queue/ev");
            assert!(content_type.is_none());
            assert_eq!(body, "héllo".as_bytes().to_vec());
        }
        other => panic!("expected an HTTP request, got {:?}", other),
    }
}

#[test]
fn post_event_sends_empty_body() {
    match post_event_to_rapids(&tcp_config(), "ping").unwrap() {
        OutboundRequest::Tcp { frame, .. } => {
            assert_eq!(frame, vec![0, 0, 4, b'p', b'i', b'n', b'g', 0, 0, 0]);
        }
        other => panic!("expected a TCP request, got {:?}", other),
    }
}

#[test]
fn tcp_reply_wraps_payload_in_json_envelope() {
    let request = reply_str_to_origin(&tcp_config(), "hi").unwrap();
    match request {
        OutboundRequest::Tcp { address, frame } => {
            assert_eq!(address, "queue:1234");
            let chunks = chunks_of(&frame);
            assert_eq!(chunks.len(), 2);
            assert_eq!(chunks[0], b"$reply".to_vec());
            assert_eq!(
                chunks[1],
                b"{\"headers\":{\"contentType\":\"text/plain\"},\"content\":[104,105]}".to_vec()
            );
        }
        other => panic!("expected a TCP request, got {:?}", other),
    }
}

#[test]
fn tcp_reply_body_parses_as_the_expected_json() {
    let request =
        reply_to_origin(&tcp_config(), &[0, 10, 255], &Headers { content_type: MimeType::txt() })
            .unwrap();
    let frame = match request {
        OutboundRequest::Tcp { frame, .. } => frame,
        other => panic!("expected a TCP request, got {:?}", other),
    };
    let chunks = chunks_of(&frame);
    let parsed: serde_json::Value = serde_json::from_slice(&chunks[1]).unwrap();
    let content_type = parsed.get("headers").unwrap().get("contentType").unwrap();
    assert_eq!(content_type, &serde_json::Value::String("text/plain".to_string()));
    let content: Vec<u64> = parsed
        .get("content")
        .unwrap()
        .as_array()
        .unwrap()
        .iter()
        .map(|v| v.as_u64().unwrap())
        .collect();
    assert_eq!(content, vec![0, 10, 255]);
}

#[test]
fn reply_json_escapes_content_type() {
    let headers = Headers { content_type: MimeType::new("a\"b\\c\nd\tz") };
    let request = reply_to_origin(&tcp_config(), b"", &headers).unwrap();
    let frame = match request {
        OutboundRequest::Tcp { frame, .. } => frame,
        other => panic!("expected a TCP request, got {:?}", other),
    };
    let chunks = chunks_of(&frame);
    assert_eq!(
        chunks[1],
        b"{\"headers\":{\"contentType\":\"a\\\"b\\\\c\\nd\\tz\"},\"content\":[]}".to_vec()
    );
    let parsed: serde_json::Value = serde_json::from_slice(&chunks[1]).unwrap();
    assert_eq!(
        parsed.get("headers").unwrap().get("contentType").unwrap(),
        &serde_json::Value::String("a\"b\\c\nd\tz".to_string())
    );
}

#[test]
fn control_characters_use_unicode_escapes() {
    let headers = Headers { content_type: MimeType::new("\u{1}\u{1f}") };
    let request = reply_to_origin(&tcp_config(), b"", &headers).unwrap();
    let frame = match request {
        OutboundRequest::Tcp { frame, .. } => frame,
        other => panic!("expected a TCP request, got {:?}", other),
    };
    let chunks = chunks_of(&frame);
    assert_eq!(
        chunks[1],
        b"{\"headers\":{\"contentType\":\"\\u0001\\u001f\"},\"content\":[]}".to_vec()
    );
}

#[test]
fn http_reply_sends_raw_payload_with_content_type() {
    let headers = Headers { content_type: MimeType::new("application/pdf") };
    match reply_to_origin(&http_config(), b"raw", &headers).unwrap() {
        OutboundRequest::Http { url, content_type, body } => {
            assert_eq!(url, "http://queue/$reply");
            assert_eq!(content_type.unwrap().as_str(), "application/pdf");
            assert_eq!(body, b"raw".to_vec());
        }
        other => panic!("expected an HTTP request, got {:?}", other),
    }
}

#[test]
fn join_posts_channel_name_as_plain_text() {
    match join_channel(&tcp_config(), "news").unwrap() {
        OutboundRequest::Tcp { frame, .. } => {
            let chunks = chunks_of(&frame);
            assert_eq!(chunks[0], b"$join".to_vec());
            assert_eq!(chunks[1], b"news".to_vec());
        }
        other => panic!("expected a TCP request, got {:?}", other),
    }
    match join_channel(&http_config(), "news").unwrap() {
        OutboundRequest::Http { url, content_type, body } => {
            assert_eq!(url, "http://queue/$join");
            assert_eq!(content_type.unwrap().as_str(), "text/plain");
            assert_eq!(body, b"news".to_vec());
        }
        other => panic!("expected an HTTP request, got {:?}", other),
    }
}

#[test]
fn broadcast_posts_json_with_three_string_fields() {
    match broadcast_to_channel(&tcp_config(), "news", "update", "v2").unwrap() {
        OutboundRequest::Tcp { frame, .. } => {
            let chunks = chunks_of(&frame);
            assert_eq!(chunks[0], b"$broadcast".to_vec());
            assert_eq!(
                chunks[1],
                b"{\"to\":\"news\",\"event\":\"update\",\"payload\":\"v2\"}".to_vec()
            );
            let parsed: serde_json::Value = serde_json::from_slice(&chunks[1]).unwrap();
            assert_eq!(parsed.get("to").unwrap().as_str(), Some("news"));
            assert_eq!(parsed.get("event").unwrap().as_str(), Some("update"));
            assert_eq!(parsed.get("payload").unwrap().as_str(), Some("v2"));
        }
        other => panic!("expected a TCP request, got {:?}", other),
    }
    match broadcast_to_channel(&http_config(), "news", "update", "v\"2").unwrap() {
        OutboundRequest::Http { url, content_type, body } => {
            assert_eq!(url, "http://queue/$broadcast");
            assert_eq!(content_type.unwrap().as_str(), "application/json");
            assert_eq!(
                body,
                b"{\"to\":\"news\",\"event\":\"update\",\"payload\":\"v\\\"2\"}".to_vec()
            );
        }
        other => panic!("expected an HTTP request, got {:?}", other),
    }
}
