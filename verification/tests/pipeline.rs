use hot_ingest::driver::{Command, Driver, Event, Phase, Reaction, EXIT_CLEAN, EXIT_FAILED};
use hot_ingest::envelope::EncodeError;
use hot_ingest::publisher::{DeliveryMode, LogLine, PublishOutcome};
use hot_ingest::source::Inbound;

fn line(text: &str, now_us: u64) -> Event {
    Event::Item { item: Inbound::Line(text.to_string()), now_us }
}

fn flushed(elapsed_us: u128) -> Event {
    Event::Outcome { outcome: PublishOutcome { elapsed_us, result: Ok(None) } }
}

fn acked(elapsed_us: u128, token: &str) -> Event {
    Event::Outcome { outcome: PublishOutcome { elapsed_us, result: Ok(Some(token.to_string())) } }
}

fn rejected(elapsed_us: u128, error: &str) -> Event {
    Event::Outcome { outcome: PublishOutcome { elapsed_us, result: Err(error.to_string()) } }
}

fn running(prefix: &str, mode: DeliveryMode) -> Driver {
    let mut driver = Driver::new(prefix, mode);
    let reaction = driver.step(Event::Connected);
    assert_eq!(reaction, Reaction { log: None, command: Command::Pull });
    driver
}

fn published(reaction: &Reaction) -> (u64, String, usize) {
    match &reaction.command {
        Command::Publish { seq, subject, payload, .. } => (*seq, subject.clone(), payload.len()),
        other => panic!("no publish was asked for: {:?}", other),
    }
}

#[test]
fn a_new_driver_waits_to_connect() {
    let driver = Driver::new("source.raw", DeliveryMode::Durable);
    assert_eq!(driver.phase(), Phase::Connecting);
    assert_eq!(driver.mode(), DeliveryMode::Durable);
    assert_eq!(driver.issued(), 0);
    assert!(!driver.awaits_outcome());
    assert_eq!(driver.due(), Command::Connect { mode: DeliveryMode::Durable });
}

#[test]
fn connecting_leads_to_running() {
    let mut driver = Driver::new("source.raw", DeliveryMode::BestEffort);
    let reaction = driver.step(Event::Connected);
    assert_eq!(reaction, Reaction { log: None, command: Command::Pull });
    assert_eq!(driver.phase(), Phase::Running);
    assert_eq!(driver.due(), Command::Pull);
}

#[test]
fn setup_failure_ends_the_run_with_a_failure_status() {
    let mut driver = Driver::new("source.raw", DeliveryMode::BestEffort);
    let reaction = driver.step(Event::SetupFailed { reason: "connection refused".to_string() });
    assert_eq!(
        reaction,
        Reaction {
            log: Some(LogLine::SetupFailed { reason: "connection refused".to_string() }),
            command: Command::Exit { code: EXIT_FAILED },
        }
    );
    assert_eq!(driver.phase(), Phase::Terminated);
    assert_eq!(driver.exit_code(), 1);
    assert_ne!(driver.exit_code(), EXIT_CLEAN);
}

#[test]
fn file_of_four_lines_publishes_three_envelopes() {
    let mut driver = running("source.raw", DeliveryMode::BestEffort);

    let first = driver.step(line("{\"symbol\":\"BTC\",\"price\":50000.1,\"qty\":0.5}", 10));
    assert_eq!(first.log, None);
    let (seq, subject, size) = published(&first);
    assert_eq!((seq, subject.as_str()), (0, "source.raw.BTC"));
    let logged = driver.step(flushed(7));
    assert_eq!(
        logged,
        Reaction {
            log: Some(LogLine::Published {
                seq: 0,
                subject: "source.raw.BTC".to_string(),
                bytes: size,
                elapsed_us: 7,
            }),
            command: Command::Pull,
        }
    );

    let second = driver.step(line("{\"symbol\":\"ETH\"}", 11));
    let (seq, subject, _) = published(&second);
    assert_eq!((seq, subject.as_str()), (1, "source.raw.ETH"));
    assert_eq!(driver.step(flushed(8)).log.unwrap().seq(), Some(1));

    let third = driver.step(line("not json", 12));
    assert!(matches!(third.log, Some(LogLine::ParseFailed { .. })));
    assert_eq!(third.log.unwrap().seq(), None);
    assert_eq!(third.command, Command::Pull);
    assert_eq!(driver.issued(), 2);

    let fourth = driver.step(line("{\"qty\":2}", 13));
    let (seq, subject, _) = published(&fourth);
    assert_eq!((seq, subject.as_str()), (2, "source.raw.UNKNOWN"));
    assert_eq!(driver.step(flushed(9)).log.unwrap().seq(), Some(2));

    assert_eq!(driver.issued(), 3);
    let end = driver.step(Event::SourceEnded);
    assert_eq!(end, Reaction { log: None, command: Command::Exit { code: 0 } });
    assert_eq!(driver.phase(), Phase::Terminated);
    assert_eq!(driver.exit_code(), EXIT_CLEAN);
}

#[test]
fn rejected_durable_publish_is_logged_and_the_run_continues() {
    let mut driver = running("source.raw", DeliveryMode::Durable);

    let first = driver.step(line("{\"symbol\":\"BTC\"}", 1));
    assert_eq!(published(&first).0, 0);
    assert!(matches!(first.command, Command::Publish { mode: DeliveryMode::Durable, .. }));
    let accepted = driver.step(acked(40, "PublishAck { stream: \"RAW\", sequence: 1 }"));
    assert_eq!(
        accepted.log,
        Some(LogLine::Acknowledged {
            seq: 0,
            subject: "source.raw.BTC".to_string(),
            ack: "PublishAck { stream: \"RAW\", sequence: 1 }".to_string(),
            elapsed_us: 40,
        })
    );

    let second = driver.step(line("{\"symbol\":\"ETH\"}", 2));
    assert_eq!(published(&second).0, 1);
    let refused = driver.step(rejected(55, "no response from broker"));
    assert_eq!(
        refused,
        Reaction {
            log: Some(LogLine::PublishFailed {
                mode: DeliveryMode::Durable,
                seq: 1,
                subject: "source.raw.ETH".to_string(),
                error: "no response from broker".to_string(),
            }),
            command: Command::Pull,
        }
    );
    assert_eq!(driver.phase(), Phase::Running);
    assert_eq!(driver.issued(), 2);

    let third = driver.step(line("{\"symbol\":\"SOL\"}", 3));
    let (seq, subject, _) = published(&third);
    assert_eq!((seq, subject.as_str()), (2, "source.raw.SOL"));
}

#[test]
fn failed_best_effort_publish_does_not_end_the_run() {
    let mut driver = running("mexc.raw", DeliveryMode::BestEffort);
    driver.step(line("{\"symbol\":\"BTC\"}", 1));
    let failed = driver.step(rejected(3, "flush failed"));
    assert_eq!(
        failed.log,
        Some(LogLine::PublishFailed {
            mode: DeliveryMode::BestEffort,
            seq: 0,
            subject: "mexc.raw.BTC".to_string(),
            error: "flush failed".to_string(),
        })
    );
    assert_eq!(failed.command, Command::Pull);
    assert_eq!(driver.exit_code(), EXIT_CLEAN);
    assert_eq!(published(&driver.step(line("{\"symbol\":\"BTC\"}", 2))).0, 1);
}

#[test]
fn sequence_numbers_count_up_whatever_the_outcomes() {
    let mut driver = running("p", DeliveryMode::BestEffort);
    let lines = ["{}", "", "{\"symbol\":1}", "oops", "   ", "[1,2]", "{\"symbol\":\"A\"}", "{"];
    let mut assigned = Vec::new();
    let mut logged = Vec::new();
    let mut normalized = 0u64;
    for (i, text) in lines.iter().enumerate() {
        let reaction = driver.step(line(text, i as u64));
        if let Command::Publish { seq, .. } = reaction.command {
            normalized += 1;
            assigned.push(seq);
            let outcome = if i % 2 == 0 { flushed(1) } else { rejected(1, "down") };
            let report = driver.step(outcome);
            logged.push(report.log.unwrap().seq().unwrap());
        }
    }
    assert_eq!(normalized, 4);
    assert_eq!(assigned, vec![0, 1, 2, 3]);
    assert_eq!(logged, vec![0, 1, 2, 3]);
    assert_eq!(driver.issued(), 4);
}

#[test]
fn blank_lines_are_passed_over_in_silence() {
    let mut driver = running("p", DeliveryMode::BestEffort);
    for text in ["", " ", "\t", "  \r", "\u{a0}\u{3000}"] {
        let reaction = driver.step(line(text, 5));
        assert_eq!(reaction, Reaction { log: None, command: Command::Pull });
        assert_eq!(driver.issued(), 0);
    }
    assert_eq!(published(&driver.step(line("{}", 6))).0, 0);
}

#[test]
fn malformed_line_uses_up_no_sequence_number() {
    let mut driver = running("p", DeliveryMode::BestEffort);
    driver.step(line("{\"symbol\":\"A\"}", 1));
    driver.step(flushed(1));
    let bad = driver.step(line("{\"symbol\":", 2));
    match bad.log {
        Some(LogLine::ParseFailed { error }) => assert!(error.contains("EOF")),
        other => panic!("no parse error was logged: {:?}", other),
    }
    assert_eq!(bad.command, Command::Pull);
    assert_eq!(driver.issued(), 1);
    assert_eq!(published(&driver.step(line("{\"symbol\":\"B\"}", 3))).0, 1);
}

#[test]
fn socket_frames_are_read_as_text() {
    let mut driver = running("ws", DeliveryMode::BestEffort);
    let text = driver.step(Event::Item {
        item: Inbound::Text("{\"symbol\":\"T\"}".to_string()),
        now_us: 1,
    });
    assert_eq!(published(&text).1, "ws.T");
    driver.step(flushed(1));

    let binary = driver.step(Event::Item {
        item: Inbound::Binary("{\"symbol\":\"B\"}".as_bytes().to_vec()),
        now_us: 2,
    });
    assert_eq!(published(&binary).1, "ws.B");
    driver.step(flushed(1));

    let control = driver.step(Event::Item { item: Inbound::Control, now_us: 3 });
    assert_eq!(control, Reaction { log: None, command: Command::Pull });
    assert_eq!(driver.issued(), 2);

    let blank = driver.step(Event::Item { item: Inbound::Text("  ".to_string()), now_us: 4 });
    assert!(matches!(blank.log, Some(LogLine::ParseFailed { .. })));
    assert_eq!(driver.issued(), 2);
}

#[test]
fn broken_source_ends_the_run_with_a_failure_status() {
    let mut driver = running("p", DeliveryMode::BestEffort);
    let reaction = driver.step(Event::SourceFailed { reason: "connection reset".to_string() });
    assert_eq!(
        reaction,
        Reaction {
            log: Some(LogLine::SourceFailed { reason: "connection reset".to_string() }),
            command: Command::Exit { code: 1 },
        }
    );
    assert_eq!(driver.phase(), Phase::Terminated);
    assert_eq!(driver.exit_code(), EXIT_FAILED);
}

#[test]
fn events_out_of_turn_change_nothing() {
    let mut driver = Driver::new("p", DeliveryMode::BestEffort);
    let early = driver.step(line("{}", 1));
    assert_eq!(
        early,
        Reaction { log: None, command: Command::Connect { mode: DeliveryMode::BestEffort } }
    );
    assert_eq!(driver.phase(), Phase::Connecting);
    driver.step(Event::Connected);

    assert_eq!(driver.step(flushed(1)), Reaction { log: None, command: Command::Pull });

    driver.step(line("{}", 2));
    assert!(driver.awaits_outcome());
    assert_eq!(driver.due(), Command::Await);
    assert_eq!(driver.step(line("{}", 3)), Reaction { log: None, command: Command::Await });
    assert_eq!(driver.step(Event::SourceEnded), Reaction { log: None, command: Command::Await });
    assert_eq!(driver.issued(), 1);
    driver.step(flushed(1));
    assert!(!driver.awaits_outcome());

    driver.step(Event::SourceEnded);
    let late = driver.step(line("{}", 4));
    assert_eq!(late, Reaction { log: None, command: Command::Exit { code: 0 } });
    assert_eq!(driver.issued(), 1);
}

#[test]
fn two_drivers_count_on_their_own() {
    let mut one = running("a", DeliveryMode::BestEffort);
    let mut two = running("b", DeliveryMode::Durable);
    assert_eq!(published(&one.step(line("{}", 1))).0, 0);
    one.step(flushed(1));
    assert_eq!(published(&one.step(line("{}", 2))).0, 1);
    let first_of_two = two.step(line("{}", 3));
    assert_eq!(published(&first_of_two).0, 0);
    assert_eq!(published(&first_of_two).1, "b.UNKNOWN");
    assert_eq!(one.issued(), 2);
    assert_eq!(two.issued(), 1);
}

#[test]
fn dispatch_hands_bytes_on_or_logs_the_encoder_failure() {
    let mut driver = running("p", DeliveryMode::Durable);
    let sent = driver.dispatch("p.A".to_string(), Ok(vec![1, 2, 3]));
    assert_eq!(
        sent,
        Reaction {
            log: None,
            command: Command::Publish {
                mode: DeliveryMode::Durable,
                seq: 0,
                subject: "p.A".to_string(),
                payload: vec![1, 2, 3],
            },
        }
    );
    assert!(driver.awaits_outcome());
    let waiting = driver.dispatch("p.B".to_string(), Ok(vec![4]));
    assert_eq!(waiting, Reaction { log: None, command: Command::Await });
    assert_eq!(driver.issued(), 1);
    let done = driver.step(flushed(2));
    assert_eq!(
        done.log,
        Some(LogLine::Published { seq: 0, subject: "p.A".to_string(), bytes: 3, elapsed_us: 2 })
    );

    let failed = driver.dispatch(
        "p.C".to_string(),
        Err(EncodeError { message: "out of memory".to_string() }),
    );
    assert_eq!(
        failed,
        Reaction {
            log: Some(LogLine::EncodeFailed {
                seq: 1,
                subject: "p.C".to_string(),
                error: "out of memory".to_string(),
            }),
            command: Command::Pull,
        }
    );
    assert_eq!(driver.issued(), 2);
    assert!(!driver.awaits_outcome());
}
