use mic_stream::capture::{capture_batch, CaptureChannel, Next};
use mic_stream::encode::{encode_pcm16, input_kind, InputKind};
use mic_stream::error::StartError;
use mic_stream::format::{negotiate, AudioFormat, ConfigRange, DefaultConfig, SampleFormat};
use mic_stream::link::{
    channel_event, endpoint_url, handshake_headers, handshake_request, link_step, push_decimal,
    upgrade_request, Frame, LinkAction, LinkEvent, LinkState,
};
use mic_stream::session::{commit_start, plan_capture, refuse_start, stop, Session};

fn mono(rate: u32, f: SampleFormat) -> ConfigRange {
    ConfigRange { channels: 1, min_sample_rate: rate, max_sample_rate: rate, sample_format: f }
}

fn decode(b: &[u8]) -> Vec<i16> {
    b.chunks(2).map(|p| i16::from_le_bytes([p[0], p[1]])).collect()
}

#[test]
fn negotiate_prefers_highest_mono_rate() {
    let configs = vec![mono(16000, SampleFormat::I16), mono(48000, SampleFormat::F32)];
    let d = DefaultConfig { channels: 2, sample_rate: 44100, sample_format: SampleFormat::I16 };
    let p = negotiate(&configs, &d);
    assert_eq!(p.format.sample_rate, 48000);
    assert_eq!(p.input, SampleFormat::F32);
    assert_eq!(p.format.channels, 1);
    assert_eq!(p.format.bit_depth, 16);
}

#[test]
fn negotiate_uses_range_maximum_and_skips_stereo() {
    let configs = vec![
        ConfigRange { channels: 2, min_sample_rate: 8000, max_sample_rate: 96000, sample_format: SampleFormat::F32 },
        ConfigRange { channels: 1, min_sample_rate: 8000, max_sample_rate: 44100, sample_format: SampleFormat::I16 },
        ConfigRange { channels: 1, min_sample_rate: 8000, max_sample_rate: 44100, sample_format: SampleFormat::F32 },
    ];
    let d = DefaultConfig { channels: 2, sample_rate: 96000, sample_format: SampleFormat::F32 };
    let p = negotiate(&configs, &d);
    assert_eq!(p.format.sample_rate, 44100);
    assert_eq!(p.input, SampleFormat::I16);
}

#[test]
fn negotiate_falls_back_to_default_without_mono() {
    let configs = vec![ConfigRange {
        channels: 2,
        min_sample_rate: 8000,
        max_sample_rate: 48000,
        sample_format: SampleFormat::I16,
    }];
    let d = DefaultConfig { channels: 2, sample_rate: 44100, sample_format: SampleFormat::F32 };
    let p = negotiate(&configs, &d);
    assert_eq!(p.format, AudioFormat { sample_rate: 44100, channels: 1, bit_depth: 16 });
    assert_eq!(p.input, SampleFormat::F32);
    let empty: Vec<ConfigRange> = Vec::new();
    assert_eq!(negotiate(&empty, &d).format.sample_rate, 44100);
}

#[test]
fn plan_accepts_supported_and_rejects_other_formats() {
    let d = DefaultConfig { channels: 1, sample_rate: 16000, sample_format: SampleFormat::Other };
    let ok = plan_capture(&vec![mono(16000, SampleFormat::I16)], &d).unwrap();
    assert_eq!(ok.1, InputKind::I16);
    let err = plan_capture(&Vec::new(), &d).unwrap_err();
    assert!(matches!(err, StartError::UnsupportedFormat));
    assert_eq!(err.message(), "Unsupported format");
    assert_eq!(input_kind(SampleFormat::F32), Some(InputKind::F32));
    assert_eq!(input_kind(SampleFormat::Other), None);
}

#[test]
fn encode_writes_little_endian_pairs() {
    let bytes = encode_pcm16(&[1, -1, 256, i16::MIN, i16::MAX]);
    assert_eq!(bytes, vec![1, 0, 255, 255, 0, 1, 0, 128, 255, 127]);
    assert!(encode_pcm16(&[]).is_empty());
}

#[test]
fn encode_round_trips_through_decode() {
    let samples: Vec<i16> = vec![0, 12, -12, 1000, -32768, 32767, -2];
    let bytes = encode_pcm16(&samples);
    assert_eq!(bytes.len(), 2 * samples.len());
    assert_eq!(decode(&bytes), samples);
}

#[test]
fn channel_drops_newest_when_full() {
    let mut c = CaptureChannel::new(3);
    for i in 0..5u8 {
        let kept = c.offer(vec![i]);
        assert_eq!(kept, i < 3);
        assert!(c.len() <= c.capacity());
    }
    assert_eq!(c.len(), 3);
    for i in 0..3u8 {
        match c.take() {
            Next::Batch(b) => assert_eq!(b, vec![i]),
            other => panic!("unexpected {:?}", other),
        }
    }
    assert!(matches!(c.take(), Next::Empty));
}

#[test]
fn channel_capacity_one_hundred_holds_one_hundred() {
    let mut c = CaptureChannel::new(100);
    for i in 0..250u32 {
        c.offer(vec![(i % 256) as u8]);
    }
    assert_eq!(c.len(), 100);
}

#[test]
fn channel_ends_after_pending_batches_are_taken() {
    let mut c = CaptureChannel::new(4);
    assert!(c.offer(vec![7]));
    c.close();
    assert!(c.is_closed());
    assert!(!c.offer(vec![8]));
    assert!(matches!(c.take(), Next::Batch(ref b) if *b == vec![7]));
    assert!(matches!(c.take(), Next::Ended));
}

#[test]
fn capture_batch_queues_encoded_bytes() {
    let mut c = CaptureChannel::new(2);
    assert!(capture_batch(&mut c, &[2, -2]));
    match c.take() {
        Next::Batch(b) => assert_eq!(b, vec![2, 0, 254, 255]),
        other => panic!("unexpected {:?}", other),
    }
}

#[test]
fn decimal_digits() {
    let mut s = String::from("r=");
    push_decimal(&mut s, 0);
    push_decimal(&mut s, 4294967295);
    assert_eq!(s, "r=04294967295");
}

#[test]
fn endpoint_carries_sample_rate() {
    assert_eq!(
        endpoint_url(48000),
        "wss://api.deepgram.com/v1/listen?encoding=linear16&sample_rate=48000&channels=1&smart_format=true&model=nova-3&language=en-IN&interim_results=true"
    );
}

#[test]
fn headers_carry_token_and_key() {
    let h = handshake_headers("SECRET-REDACTED", "abc==");
    let pairs: Vec<(&str, &str)> = h.iter().map(|(k, v)| (k.as_str(), v.as_str())).collect();
    assert_eq!(
        pairs,
        vec![
            ("Authorization", "Token SECRET-REDACTED"),
            ("Sec-WebSocket-Key", "abc=="),
            ("Host", "api.deepgram.com"),
            ("Connection", "Upgrade"),
            ("Upgrade", "websocket"),
            ("Sec-WebSocket-Version", "13"),
        ]
    );
}

#[test]
fn upgrade_request_is_built() {
    let req = upgrade_request(16000, "k1", "dGhlIHNhbXBsZSBub25jZQ==").unwrap();
    assert_eq!(req.method(), "GET");
    assert_eq!(req.uri().host(), Some("api.deepgram.com"));
    assert_eq!(
        req.uri().query(),
        Some("encoding=linear16&sample_rate=16000&channels=1&smart_format=true&model=nova-3&language=en-IN&interim_results=true")
    );
    assert_eq!(req.headers()["Authorization"], "Token k1");
    assert_eq!(req.headers()["Sec-WebSocket-Key"], "dGhlIHNhbXBsZSBub25jZQ==");
    assert_eq!(req.headers()["Upgrade"], "websocket");
}

#[test]
fn upgrade_request_rejects_bad_credential() {
    let err = upgrade_request(16000, "bad\nkey", "x").unwrap_err();
    assert!(matches!(err, StartError::MalformedRequest));
}

#[test]
fn handshake_request_uses_fresh_key() {
    let req = handshake_request(48000, "k2").unwrap();
    let key = req.headers()["Sec-WebSocket-Key"].to_str().unwrap().to_string();
    assert_eq!(key.len(), 24);
    assert_eq!(req.headers()["Authorization"], "Token k2");
}

#[test]
fn inbound_text_is_forwarded_verbatim() {
    let body = "{\"transcript\":\"hello\"}".to_string();
    let (s, a) = link_step(LinkState::Streaming, LinkEvent::Inbound(Frame::Text(body)));
    assert_eq!(s, LinkState::Streaming);
    match a {
        LinkAction::Notify(t) => assert_eq!(t, "{\"transcript\":\"hello\"}"),
        other => panic!("unexpected {:?}", other),
    }
    let (s, a) = link_step(LinkState::Streaming, LinkEvent::Inbound(Frame::Other));
    assert_eq!(s, LinkState::Streaming);
    assert!(matches!(a, LinkAction::Nothing));
}

#[test]
fn link_lifecycle() {
    let (s, a) = link_step(LinkState::Idle, LinkEvent::Begin);
    assert_eq!(s, LinkState::Connecting);
    assert!(matches!(a, LinkAction::Connect));
    let (s, _) = link_step(s, LinkEvent::Connected);
    assert_eq!(s, LinkState::Streaming);
    let (s, a) = link_step(s, LinkEvent::Batch(vec![1, 2]));
    assert!(matches!(a, LinkAction::Send(ref b) if *b == vec![1, 2]));
    let (s, a) = link_step(s, LinkEvent::InputEnded);
    assert_eq!(s, LinkState::Closing);
    assert!(matches!(a, LinkAction::CancelInbound));
    let (s, a) = link_step(s, LinkEvent::Inbound(Frame::Text("late".to_string())));
    assert_eq!(s, LinkState::Closing);
    assert!(matches!(a, LinkAction::Nothing));
    let (s, _) = link_step(s, LinkEvent::CleanupDone);
    assert_eq!(s, LinkState::Closed);
}

#[test]
fn link_send_failure_closes() {
    let (s, a) = link_step(LinkState::Streaming, LinkEvent::SendFailed);
    assert_eq!(s, LinkState::Closing);
    assert!(matches!(a, LinkAction::CancelInbound));
}

#[test]
fn link_handshake_failure_is_absorbing() {
    let (s, a) = link_step(LinkState::Connecting, LinkEvent::ConnectFailed("refused".to_string()));
    assert_eq!(s, LinkState::Failed);
    assert!(matches!(a, LinkAction::Report(ref e) if e == "refused"));
    let (s, a) = link_step(s, LinkEvent::Batch(vec![1]));
    assert_eq!(s, LinkState::Failed);
    assert!(matches!(a, LinkAction::Nothing));
}

#[test]
fn channel_answers_become_link_events() {
    assert!(matches!(channel_event(Next::Batch(vec![3])), Some(LinkEvent::Batch(ref b)) if *b == vec![3]));
    assert!(matches!(channel_event(Next::Ended), Some(LinkEvent::InputEnded)));
    assert!(channel_event(Next::Empty).is_none());
}

#[test]
fn stop_without_session_is_a_no_op() {
    let mut s: Session<u32> = Session::new();
    let (r, released) = stop(&mut s);
    assert_eq!(r, Ok("Recording Stopped".to_string()));
    assert!(released.is_none());
    assert!(!s.is_active());
}

#[test]
fn stop_releases_the_stream() {
    let mut s: Session<u32> = Session::new();
    let (r, _) = commit_start(&mut s, 5, Ok(()));
    assert_eq!(r, Ok("Recording Started".to_string()));
    let (_, released) = stop(&mut s);
    assert_eq!(released, Some(5));
    assert!(!s.is_active());
}

#[test]
fn second_start_replaces_the_first_stream() {
    let mut s: Session<u32> = Session::new();
    let (_, r1) = commit_start(&mut s, 1, Ok(()));
    assert!(r1.is_none());
    let (r, r2) = commit_start(&mut s, 2, Ok(()));
    assert!(r.is_ok());
    assert_eq!(r2, Some(1));
    assert_eq!(stop(&mut s).1, Some(2));
}

#[test]
fn refused_handshake_fails_start_and_releases_stream() {
    let mut s: Session<u32> = Session::new();
    let (r, released) = commit_start(&mut s, 9, Err("Connection refused".to_string()));
    assert_eq!(r, Err("Failed to connect: Connection refused".to_string()));
    assert_eq!(released, Some(9));
    assert!(!s.is_active());
}

#[test]
fn error_messages() {
    assert_eq!(refuse_start(StartError::NoInputDevice), Err("No input device".to_string()));
    assert_eq!(StartError::ConfigQuery("q".to_string()).message(), "q");
    assert_eq!(StartError::Stream("busy".to_string()).message(), "busy");
    assert_eq!(StartError::MalformedRequest.message(), "Malformed connection request");
}
