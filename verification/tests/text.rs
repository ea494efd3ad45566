use hot_ingest::publisher::{report, DeliveryMode, LogLine, PublishOutcome, Submission};
use hot_ingest::sequencer::Sequencer;
use hot_ingest::source::{record_text, Inbound};
use hot_ingest::text::{decimal_text, is_blank, is_white_space_char, push_decimal};

#[test]
fn blank_is_empty_or_white_space_only() {
    assert!(is_blank(""));
    assert!(is_blank(" "));
    assert!(is_blank(" \t\r\n\u{b}\u{c}"));
    assert!(is_blank("\u{85}\u{a0}\u{1680}\u{2000}\u{200a}\u{2028}\u{2029}\u{202f}\u{205f}\u{3000}"));
    assert!(!is_blank("a"));
    assert!(!is_blank("  {} "));
    assert!(!is_blank("\u{200b}"));
    assert!(!is_blank("\u{feff}"));
    assert!(!is_blank(" \u{1f} "));
}

#[test]
fn blank_agrees_with_trimming() {
    for text in ["", "   ", "\t\n", " x ", "\u{2003}", "\u{180e}", "\u{0}", "\u{2007}\u{2008}."] {
        assert_eq!(is_blank(text), text.trim().is_empty(), "for {:?}", text);
    }
}

#[test]
fn white_space_is_the_unicode_property() {
    for code in 0u32..0x3100 {
        let c = char::from_u32(code).unwrap();
        assert_eq!(is_white_space_char(c), c.is_whitespace(), "for U+{:04X}", code);
    }
    assert!(!is_white_space_char('\u{10ffff}'));
}

#[test]
fn decimal_numerals() {
    assert_eq!(decimal_text(0), "0");
    assert_eq!(decimal_text(7), "7");
    assert_eq!(decimal_text(10), "10");
    assert_eq!(decimal_text(1234567890), "1234567890");
    assert_eq!(decimal_text(u64::MAX as u128), "18446744073709551615");
    assert_eq!(decimal_text(u128::MAX), "340282366920938463463374607431768211455");
    let mut text = String::from("n=");
    push_decimal(&mut text, 405);
    assert_eq!(text, "n=405");
}

#[test]
fn log_lines_render_as_text() {
    let published =
        LogLine::Published { seq: 3, subject: "source.raw.BTC".to_string(), bytes: 120, elapsed_us: 45 };
    assert_eq!(
        published.render(),
        "PUB seq_local=3 subj=source.raw.BTC bytes=120 flush_time_us=45"
    );
    assert!(!published.is_failure());
    assert_eq!(published.seq(), Some(3));

    let acknowledged = LogLine::Acknowledged {
        seq: 10,
        subject: "s.ETH".to_string(),
        ack: "PublishAck { sequence: 5 }".to_string(),
        elapsed_us: 1000,
    };
    assert_eq!(
        acknowledged.render(),
        "JET_ACK seq_local=10 subj=s.ETH ack=PublishAck { sequence: 5 } ack_time_us=1000"
    );
    assert!(!acknowledged.is_failure());

    let durable = LogLine::PublishFailed {
        mode: DeliveryMode::Durable,
        seq: 0,
        subject: "s.A".to_string(),
        error: "timed out".to_string(),
    };
    assert_eq!(durable.render(), "JET_PUBLISH_ERROR seq_local=0 subj=s.A err=timed out");
    assert!(durable.is_failure());

    let best_effort = LogLine::PublishFailed {
        mode: DeliveryMode::BestEffort,
        seq: 1,
        subject: "s.A".to_string(),
        error: "broken pipe".to_string(),
    };
    assert_eq!(best_effort.render(), "PUB_ERROR seq_local=1 subj=s.A err=broken pipe");

    let encode = LogLine::EncodeFailed {
        seq: 2,
        subject: "s.B".to_string(),
        error: "out of memory".to_string(),
    };
    assert_eq!(encode.render(), "ENCODE_ERROR seq_local=2 subj=s.B err=out of memory");
    assert_eq!(encode.seq(), Some(2));

    let parse = LogLine::ParseFailed { error: "expected value at line 1 column 1".to_string() };
    assert_eq!(parse.render(), "JSON parse error: expected value at line 1 column 1");
    assert!(parse.is_failure());
    assert_eq!(parse.seq(), None);

    let setup = LogLine::SetupFailed { reason: "refused".to_string() };
    assert_eq!(setup.render(), "SETUP_ERROR err=refused");
    let source = LogLine::SourceFailed { reason: "reset".to_string() };
    assert_eq!(source.render(), "SOURCE_ERROR err=reset");
    assert_eq!(source.seq(), None);
}

#[test]
fn report_follows_the_outcome() {
    let submission = || Submission { seq: 4, subject: "p.X".to_string(), bytes: 33 };
    assert_eq!(
        report(DeliveryMode::BestEffort, submission(), PublishOutcome { elapsed_us: 9, result: Ok(None) }),
        LogLine::Published { seq: 4, subject: "p.X".to_string(), bytes: 33, elapsed_us: 9 }
    );
    assert_eq!(
        report(
            DeliveryMode::Durable,
            submission(),
            PublishOutcome { elapsed_us: 9, result: Ok(Some("ack".to_string())) }
        ),
        LogLine::Acknowledged {
            seq: 4,
            subject: "p.X".to_string(),
            ack: "ack".to_string(),
            elapsed_us: 9
        }
    );
    assert_eq!(
        report(
            DeliveryMode::Durable,
            submission(),
            PublishOutcome { elapsed_us: 9, result: Err("nak".to_string()) }
        ),
        LogLine::PublishFailed {
            mode: DeliveryMode::Durable,
            seq: 4,
            subject: "p.X".to_string(),
            error: "nak".to_string()
        }
    );
}

#[test]
fn sequencer_counts_from_zero_by_one() {
    let mut sequencer = Sequencer::new();
    assert_eq!(sequencer.issued(), 0);
    assert_eq!(sequencer.issue(), 0);
    assert_eq!(sequencer.issue(), 1);
    assert_eq!(sequencer.issue(), 2);
    assert_eq!(sequencer.issued(), 3);
    let mut other = Sequencer::new();
    assert_eq!(other.issue(), 0);
    assert_eq!(sequencer.issued(), 3);
}

#[test]
fn record_text_of_each_kind_of_item() {
    assert_eq!(record_text(Inbound::Line("{\"a\":1}".to_string())), Some("{\"a\":1}".to_string()));
    assert_eq!(record_text(Inbound::Line("".to_string())), None);
    assert_eq!(record_text(Inbound::Line(" \t".to_string())), None);
    assert_eq!(record_text(Inbound::Text("  ".to_string())), Some("  ".to_string()));
    assert_eq!(record_text(Inbound::Text("{}".to_string())), Some("{}".to_string()));
    assert_eq!(record_text(Inbound::Binary(b"{\"s\":\"\xc3\xa9\"}".to_vec())), Some("{\"s\":\"é\"}".to_string()));
    assert_eq!(record_text(Inbound::Binary(vec![])), Some(String::new()));
    assert_eq!(record_text(Inbound::Control), None);
}

#[test]
fn invalid_utf8_in_a_binary_frame_is_replaced() {
    assert_eq!(
        record_text(Inbound::Binary(vec![b'a', 0xff, b'b'])),
        Some("a\u{fffd}b".to_string())
    );
    assert_eq!(
        record_text(Inbound::Binary(vec![0xe2, 0x82])),
        Some("\u{fffd}".to_string())
    );
}
