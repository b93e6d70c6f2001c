use sealupd::log::{file_line, log_file_name, Level, Logger, Stream};

#[test]
fn error_line_with_colours() {
    let line = Logger::new(true, false).console_error("boom");
    assert_eq!(line.stream, Stream::Stderr);
    assert_eq!(line.text, "\x1b[1;31mE\x1b[0m boom\n");
}

#[test]
fn plain_headers_without_colours() {
    let logger = Logger::new(false, false);
    assert_eq!(logger.console_error("a").text, "E a\n");
    assert_eq!(logger.console_warn("b").text, "W b\n");
    let ok = logger.console_success("c");
    assert_eq!(ok.text, "O c\n");
    assert_eq!(ok.stream, Stream::Stdout);
    assert_eq!(logger.console_info("d").text, "d\n");
}

#[test]
fn coloured_success_and_warning() {
    let logger = Logger::new(true, true);
    assert_eq!(logger.console_success("ok").text, "\x1b[1;32mO\x1b[0m ok\n");
    assert_eq!(logger.console_warn("hm").text, "\x1b[1;33mW\x1b[0m hm\n");
}

#[test]
fn verbose_messages_only_in_verbose_mode() {
    let quiet = Logger::new(false, false);
    assert!(quiet.console_verbose("x").is_none());
    assert!(quiet.file_verbose("x").is_none());
    let batch = quiet.batch_verbose("x");
    assert!(batch.console.is_none() && batch.file.is_none());

    let loud = Logger::new(false, true);
    let line = loud.console_verbose("x").unwrap();
    assert_eq!(line.text, "x\n");
    assert_eq!(line.stream, Stream::Stdout);
    let rec = loud.file_verbose("x").unwrap();
    assert_eq!(rec.level, Level::Debug);
    assert_eq!(rec.text, "x");
}

#[test]
fn batches_reach_console_and_file() {
    let logger = Logger::new(false, false);
    let b = logger.batch_error("bad");
    assert_eq!(b.console.unwrap().text, "E bad\n");
    assert_eq!(b.file.unwrap().level, Level::Error);
    let b = logger.batch_success("good");
    assert_eq!(b.console.unwrap().text, "O good\n");
    assert_eq!(b.file.unwrap().level, Level::Info);
    let b = logger.batch_warn("careful");
    assert_eq!(b.file.unwrap().level, Level::Warn);
    let b = logger.batch_info("note");
    assert_eq!(b.console.unwrap().stream, Stream::Stderr);
    assert_eq!(b.file.unwrap().text, "note");
    assert_eq!(logger.file_error("e").level, Level::Error);
    assert_eq!(logger.file_info("i").level, Level::Info);
    assert_eq!(logger.file_warn("w").level, Level::Warn);
}

#[test]
fn log_file_names_and_lines() {
    assert_eq!(log_file_name("250101_120000"), "updater_250101_120000.txt");
    assert_eq!(
        file_line("2025-01-01 12:00:00.000", Level::Warn, "hello"),
        "2025-01-01 12:00:00.000 [WARN] hello"
    );
}
