use projektwoche_setup::logger::{
    BusEvent, CollectorAction, ConsoleOutput, LevelFilter, LogFilter, LogLevel, LogMessage,
    LogOutput, Logger, LoggerSystem,
};

fn text(s: &str) -> String {
    s.to_string()
}

fn message(level: LogLevel, body: &str, timestamp: u64) -> LogMessage {
    LogMessage::new(text("worker-1"), level, text("installer"), text(body), timestamp)
}

#[test]
fn levels_are_ordered_by_severity() {
    let levels =
        [LogLevel::Debug, LogLevel::Info, LogLevel::Warning, LogLevel::Error, LogLevel::Critical];
    for (i, a) in levels.iter().enumerate() {
        assert_eq!(a.rank() as usize, i);
        for (j, b) in levels.iter().enumerate() {
            assert_eq!(a.at_least(b), i >= j);
        }
    }
}

#[test]
fn levels_have_labels() {
    assert_eq!(LogLevel::Debug.label(), "DEBUG");
    assert_eq!(LogLevel::Info.label(), "INFO");
    assert_eq!(LogLevel::Warning.label(), "WARN");
    assert_eq!(LogLevel::Error.label(), "ERROR");
    assert_eq!(LogLevel::Critical.label(), "CRIT");
    assert_eq!(LogLevel::default(), LogLevel::Info);
}

#[test]
fn level_filter_lets_its_level_and_above_pass() {
    let filter = LevelFilter::new(LogLevel::Warning);
    assert!(!filter.allow(&message(LogLevel::Debug, "d", 0)));
    assert!(!filter.allow(&message(LogLevel::Info, "i", 0)));
    assert!(filter.allow(&message(LogLevel::Warning, "w", 0)));
    assert!(filter.allow(&message(LogLevel::Error, "e", 0)));
    assert!(filter.allow(&message(LogLevel::Critical, "c", 0)));
}

#[test]
fn console_line_without_colours() {
    let output = ConsoleOutput::new(false);
    let entry = message(LogLevel::Info, "Starting", 3_723_004);
    assert_eq!(output.format_message(&entry), "[01:02:03.004] [INFO] [worker-1] installer: Starting");
}

#[test]
fn console_line_with_colours() {
    let output = ConsoleOutput::new(true);
    let entry = message(LogLevel::Error, "Failed", 86_399_999);
    assert_eq!(
        output.format_message(&entry),
        "[23:59:59.999] [\x1b[31mERROR\x1b[0m] [\x1b[34mworker-1\x1b[0m] installer: Failed"
    );
}

#[test]
fn console_line_wraps_at_midnight() {
    let output = ConsoleOutput::new(false);
    let entry = message(LogLevel::Debug, "tick", 86_400_000 * 19_000 + 45_296_789);
    assert_eq!(output.render(&entry), "[12:34:56.789] [DEBUG] [worker-1] installer: tick");
    let entry = message(LogLevel::Critical, "zero", 0);
    assert_eq!(output.render(&entry), "[00:00:00.000] [CRIT] [worker-1] installer: zero");
    let entry = message(LogLevel::Warning, "max", u64::MAX);
    assert_eq!(output.render(&entry), "[14:25:51.615] [WARN] [worker-1] installer: max");
}

#[test]
fn every_level_has_its_colour() {
    let output = ConsoleOutput::new(true);
    let tags = [
        (LogLevel::Debug, "\x1b[36mDEBUG\x1b[0m"),
        (LogLevel::Info, "\x1b[32mINFO\x1b[0m"),
        (LogLevel::Warning, "\x1b[33mWARN\x1b[0m"),
        (LogLevel::Error, "\x1b[31mERROR\x1b[0m"),
        (LogLevel::Critical, "\x1b[35mCRIT\x1b[0m"),
    ];
    for (level, tag) in tags {
        let line = output.format_message(&message(level, "x", 0));
        assert_eq!(
            line,
            format!("[00:00:00.000] [{}] [\x1b[34mworker-1\x1b[0m] installer: x", tag)
        );
    }
}

#[test]
fn message_builders_keep_the_rest() {
    let entry = message(LogLevel::Info, "m", 7)
        .with_context(vec![(text("k"), text("v"))])
        .with_location("main.rs", 12);
    assert_eq!(entry.thread_name, "worker-1");
    assert_eq!(entry.source, "installer");
    assert_eq!(entry.message, "m");
    assert_eq!(entry.timestamp, 7);
    assert_eq!(entry.level, LogLevel::Info);
    assert_eq!(entry.context, Some(vec![(text("k"), text("v"))]));
    assert_eq!(entry.file, Some("main.rs"));
    assert_eq!(entry.line, Some(12));
}

#[test]
fn logger_stamps_its_messages() {
    let logger = Logger::new("main", text("main-thread"));
    let made = [
        (logger.debug("a", 1), LogLevel::Debug),
        (logger.info("a", 1), LogLevel::Info),
        (logger.warn("a", 1), LogLevel::Warning),
        (logger.error("a", 1), LogLevel::Error),
        (logger.critical("a", 1), LogLevel::Critical),
    ];
    for (entry, level) in made {
        assert_eq!(entry, LogMessage::new(text("main-thread"), level, text("main"), text("a"), 1));
    }
    assert_eq!(
        logger.log(LogLevel::Info, "hello", 99),
        LogMessage::new(text("main-thread"), LogLevel::Info, text("main"), text("hello"), 99)
    );
}

#[test]
fn collector_writes_approved_messages_to_every_output() {
    let (_, mut collector) = LoggerSystem::new::<ConsoleOutput, LevelFilter>();
    collector.add_output(ConsoleOutput::new(false));
    collector.add_output(ConsoleOutput::new(true));
    collector.add_filter(LevelFilter::new(LogLevel::Info));
    let entry = message(LogLevel::Warning, "careful", 1_000);
    assert_eq!(
        collector.on_event(&BusEvent::Message { message: entry }),
        CollectorAction::Write {
            lines: vec![
                text("[00:00:01.000] [WARN] [worker-1] installer: careful"),
                text(
                    "[00:00:01.000] [\x1b[33mWARN\x1b[0m] [\x1b[34mworker-1\x1b[0m] installer: careful"
                ),
            ],
        }
    );
}

#[test]
fn collector_drops_what_a_filter_rejects() {
    let (_, mut collector) = LoggerSystem::new::<ConsoleOutput, LevelFilter>();
    collector.add_output(ConsoleOutput::new(false));
    collector.add_filter(LevelFilter::new(LogLevel::Debug));
    collector.add_filter(LevelFilter::new(LogLevel::Error));
    let entry = message(LogLevel::Warning, "careful", 0);
    assert!(!collector.allows(&entry));
    assert_eq!(collector.on_event(&BusEvent::Message { message: entry }), CollectorAction::Continue);
    let entry = message(LogLevel::Error, "broken", 0);
    assert!(collector.allows(&entry));
}

#[test]
fn collector_without_filters_approves_everything() {
    let (_, mut collector) = LoggerSystem::new::<ConsoleOutput, LevelFilter>();
    assert!(collector.allows(&message(LogLevel::Debug, "d", 0)));
    assert_eq!(
        collector.on_event(&BusEvent::Message { message: message(LogLevel::Debug, "d", 0) }),
        CollectorAction::Write { lines: vec![] }
    );
    collector.add_output(ConsoleOutput::new(false));
    assert_eq!(collector.render_all(&message(LogLevel::Debug, "d", 0)).len(), 1);
}

#[test]
fn collector_stops_only_when_disconnected() {
    let (_, collector) = LoggerSystem::new::<ConsoleOutput, LevelFilter>();
    assert_eq!(collector.on_event(&BusEvent::Timeout), CollectorAction::Continue);
    assert_eq!(collector.on_event(&BusEvent::Disconnected), CollectorAction::Stop);
}

#[test]
fn bus_delivers_in_order_of_arrival() {
    let (mut bus, _) = LoggerSystem::new::<ConsoleOutput, LevelFilter>();
    let one = bus.create_logger("worker", text("worker-1"));
    let two = bus.create_logger("worker", text("worker-2"));
    bus.send(one.info("1a", 1));
    bus.send(two.info("2a", 2));
    bus.send(one.info("1b", 3));
    bus.send(two.warn("2b", 4));
    bus.send(one.error("1c", 5));
    assert_eq!(bus.pending(), 5);
    let mut from_one = Vec::new();
    let mut from_two = Vec::new();
    let mut all = Vec::new();
    loop {
        match bus.receive() {
            BusEvent::Message { message } => {
                all.push(message.message.clone());
                if message.thread_name == "worker-1" {
                    from_one.push(message.message);
                } else {
                    from_two.push(message.message);
                }
            }
            BusEvent::Timeout => break,
            BusEvent::Disconnected => panic!("producers are still attached"),
        }
    }
    assert_eq!(all, vec!["1a", "2a", "1b", "2b", "1c"]);
    assert_eq!(from_one, vec!["1a", "1b", "1c"]);
    assert_eq!(from_two, vec!["2a", "2b"]);
    assert_eq!(bus.pending(), 0);
}

#[test]
fn bus_disconnects_after_the_last_producer_and_the_last_message() {
    let (mut bus, _) = LoggerSystem::new::<ConsoleOutput, LevelFilter>();
    let logger = bus.create_logger("main", text("main"));
    assert_eq!(bus.receive(), BusEvent::Timeout);
    bus.send(logger.info("last words", 1));
    bus.release(logger);
    assert_eq!(bus.receive(), BusEvent::Message {
        message: LogMessage::new(text("main"), LogLevel::Info, text("main"), text("last words"), 1),
    });
    assert_eq!(bus.receive(), BusEvent::Timeout);
    bus.shutdown();
    assert_eq!(bus.receive(), BusEvent::Disconnected);
    assert_eq!(bus.receive(), BusEvent::Disconnected);
}

#[test]
fn bus_drains_before_it_disconnects() {
    let (mut bus, _) = LoggerSystem::new::<ConsoleOutput, LevelFilter>();
    let logger = Logger::new("main", text("main"));
    bus.send(logger.info("a", 1));
    bus.send(logger.info("b", 2));
    bus.shutdown();
    assert!(matches!(bus.receive(), BusEvent::Message { .. }));
    assert!(matches!(bus.receive(), BusEvent::Message { .. }));
    assert_eq!(bus.receive(), BusEvent::Disconnected);
}

#[test]
fn bus_ignores_a_release_without_producers() {
    let (mut bus, _) = LoggerSystem::new::<ConsoleOutput, LevelFilter>();
    bus.shutdown();
    bus.shutdown();
    bus.release(Logger::new("x", text("y")));
    assert_eq!(bus.receive(), BusEvent::Disconnected);
    let _logger = bus.create_logger("again", text("t"));
    assert_eq!(bus.receive(), BusEvent::Timeout);
}

#[test]
fn run_writes_every_message_once_and_in_order() {
    let (mut bus, mut collector) = LoggerSystem::new::<ConsoleOutput, LevelFilter>();
    collector.add_output(ConsoleOutput::new(false));
    let one = bus.create_logger("worker", text("worker-1"));
    let two = bus.create_logger("worker", text("worker-2"));
    bus.send(one.info("1a", 0));
    bus.send(two.info("2a", 0));
    bus.send(one.info("1b", 0));
    bus.send(two.info("2b", 0));
    let (written, stop) = collector.run(&mut bus);
    assert_eq!(
        written,
        vec![
            vec![text("[00:00:00.000] [INFO] [worker-1] worker: 1a")],
            vec![text("[00:00:00.000] [INFO] [worker-2] worker: 2a")],
            vec![text("[00:00:00.000] [INFO] [worker-1] worker: 1b")],
            vec![text("[00:00:00.000] [INFO] [worker-2] worker: 2b")],
        ]
    );
    assert!(!stop);
    assert_eq!(bus.pending(), 0);
    let (written, stop) = collector.run(&mut bus);
    assert!(written.is_empty());
    assert!(!stop);
}

#[test]
fn run_drains_the_bus_before_it_stops() {
    let (mut bus, mut collector) = LoggerSystem::new::<ConsoleOutput, LevelFilter>();
    collector.add_output(ConsoleOutput::new(false));
    collector.add_output(ConsoleOutput::new(false));
    collector.add_filter(LevelFilter::new(LogLevel::Warning));
    let logger = bus.create_logger("main", text("main"));
    bus.send(logger.info("dropped", 0));
    bus.send(logger.error("kept", 0));
    bus.release(logger);
    bus.shutdown();
    let (written, stop) = collector.run(&mut bus);
    let line = text("[00:00:00.000] [ERROR] [main] main: kept");
    assert_eq!(written, vec![vec![line.clone(), line]]);
    assert!(stop);
    assert_eq!(bus.pending(), 0);
}
