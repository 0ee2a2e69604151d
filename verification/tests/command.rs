use repo_jobs::command::{
    log_lines, reader_event, spawn_error, CommandLine, CommandOutput, CommandOutputSource,
    OutputCollector,
};

fn data(source: CommandOutputSource, text: &str) -> CommandOutput {
    CommandOutput::Data(source, text.as_bytes().to_vec())
}

#[test]
fn prefix_of_each_stream() {
    assert_eq!(CommandOutputSource::Stdout.prefix(), "|");
    assert_eq!(CommandOutputSource::Stderr.prefix(), ">");
}

#[test]
fn reader_reports_a_chunk_and_reads_on() {
    let buffer = [b'a', b'b', b'c', 0, 0];
    let (event, more) = reader_event(CommandOutputSource::Stdout, &buffer, Some(3));
    assert_eq!(event, CommandOutput::Data(CommandOutputSource::Stdout, vec![b'a', b'b', b'c']));
    assert!(more);
    let (event, more) = reader_event(CommandOutputSource::Stderr, &buffer, Some(5));
    assert_eq!(event, CommandOutput::Data(CommandOutputSource::Stderr, buffer.to_vec()));
    assert!(more);
}

#[test]
fn reader_closes_at_the_end_of_the_stream() {
    let buffer = [1u8; 16];
    let (event, more) = reader_event(CommandOutputSource::Stdout, &buffer, Some(0));
    assert_eq!(event, CommandOutput::Closed(CommandOutputSource::Stdout));
    assert!(!more);
}

#[test]
fn reader_closes_after_a_failed_read() {
    let buffer = [1u8; 16];
    let (event, more) = reader_event(CommandOutputSource::Stderr, &buffer, None);
    assert_eq!(event, CommandOutput::Closed(CommandOutputSource::Stderr));
    assert!(!more);
}

#[test]
fn collector_keeps_the_order_of_arrival() {
    let mut collector = OutputCollector::new();
    let events = vec![
        data(CommandOutputSource::Stdout, "one\n"),
        data(CommandOutputSource::Stderr, "warn\n"),
        data(CommandOutputSource::Stdout, "two\n"),
        CommandOutput::Closed(CommandOutputSource::Stdout),
        data(CommandOutputSource::Stderr, "fail\n"),
        CommandOutput::Closed(CommandOutputSource::Stderr),
    ];
    for event in &events {
        assert!(!collector.is_done());
        collector.absorb(event);
    }
    assert!(collector.is_done());
    let (success, log, stderr) = collector.finish(Ok(Some(0))).unwrap();
    assert!(success);
    assert_eq!(log, "one\nwarn\ntwo\nfail\n");
    assert_eq!(stderr, "warn\nfail\n");
}

#[test]
fn collector_joins_chunks_byte_for_byte() {
    let mut collector = OutputCollector::new();
    // one character, split over two reads
    collector.absorb(&CommandOutput::Data(CommandOutputSource::Stdout, vec![0xc3]));
    collector.absorb(&CommandOutput::Data(CommandOutputSource::Stdout, vec![0xa9]));
    collector.absorb(&CommandOutput::Closed(CommandOutputSource::Stderr));
    collector.absorb(&CommandOutput::Closed(CommandOutputSource::Stdout));
    let (_, log, stderr) = collector.finish(Ok(Some(0))).unwrap();
    assert_eq!(log, "\u{e9}");
    assert_eq!(stderr, "");
}

#[test]
fn collector_is_done_after_two_closed_streams() {
    let mut collector = OutputCollector::new();
    assert!(!collector.is_done());
    collector.absorb(&CommandOutput::Closed(CommandOutputSource::Stderr));
    assert!(!collector.is_done());
    collector.absorb(&CommandOutput::Closed(CommandOutputSource::Stdout));
    assert!(collector.is_done());
}

#[test]
fn collector_ignores_what_comes_after_the_end() {
    let mut collector = OutputCollector::new();
    collector.absorb(&data(CommandOutputSource::Stderr, "kept"));
    collector.absorb(&CommandOutput::Closed(CommandOutputSource::Stdout));
    collector.absorb(&CommandOutput::Closed(CommandOutputSource::Stderr));
    collector.absorb(&data(CommandOutputSource::Stderr, "late"));
    collector.absorb(&CommandOutput::Closed(CommandOutputSource::Stderr));
    assert!(collector.is_done());
    let (_, log, stderr) = collector.finish(Ok(Some(0))).unwrap();
    assert_eq!(log, "kept");
    assert_eq!(stderr, "kept");
}

#[test]
fn command_succeeds_only_with_exit_code_zero() {
    assert!(OutputCollector::new().finish(Ok(Some(0))).unwrap().0);
    assert!(!OutputCollector::new().finish(Ok(Some(1))).unwrap().0);
    assert!(!OutputCollector::new().finish(Ok(Some(-1))).unwrap().0);
    assert!(!OutputCollector::new().finish(Ok(Some(255))).unwrap().0);
    assert!(!OutputCollector::new().finish(Ok(None)).unwrap().0);
}

#[test]
fn failed_command_keeps_its_output() {
    let mut collector = OutputCollector::new();
    collector.absorb(&data(CommandOutputSource::Stdout, "out"));
    collector.absorb(&data(CommandOutputSource::Stderr, "err"));
    let (success, log, stderr) = collector.finish(Ok(Some(2))).unwrap();
    assert!(!success);
    assert_eq!(log, "outerr");
    assert_eq!(stderr, "err");
}

#[test]
fn output_that_is_no_utf8_is_replaced() {
    let mut collector = OutputCollector::new();
    collector.absorb(&CommandOutput::Data(CommandOutputSource::Stderr, vec![b'a', 0xff, b'b']));
    let (_, log, stderr) = collector.finish(Ok(Some(1))).unwrap();
    assert_eq!(log, "a\u{fffd}b");
    assert_eq!(stderr, "a\u{fffd}b");
}

#[test]
fn wait_error_is_reported() {
    let error = OutputCollector::new().finish(Err("no child".to_string())).unwrap_err();
    assert_eq!(error.to_string(), "Can't wait for command: no child");
}

#[test]
fn spawn_error_is_reported() {
    let error = spawn_error("No such file or directory (os error 2)");
    assert_eq!(error.to_string(), "Can't start command: No such file or directory (os error 2)");
}

#[test]
fn log_lines_are_marked_by_stream() {
    let chunk = "first\nsecond\n".as_bytes().to_vec();
    assert_eq!(log_lines(CommandOutputSource::Stdout, &chunk), vec!["| first", "| second"]);
    assert_eq!(log_lines(CommandOutputSource::Stderr, &chunk), vec!["> first", "> second"]);
}

#[test]
fn log_lines_of_a_chunk_without_line_end() {
    let chunk = "a\nb".as_bytes().to_vec();
    assert_eq!(log_lines(CommandOutputSource::Stdout, &chunk), vec!["| a", "| b"]);
}

#[test]
fn log_lines_keep_empty_lines_but_the_last() {
    let chunk = "\n\nx\n".as_bytes().to_vec();
    assert_eq!(log_lines(CommandOutputSource::Stderr, &chunk), vec!["> ", "> ", "> x"]);
    assert_eq!(log_lines(CommandOutputSource::Stderr, &Vec::new()), Vec::<String>::new());
    assert_eq!(log_lines(CommandOutputSource::Stderr, &vec![b'\n']), vec!["> "]);
}

#[test]
fn log_lines_replace_what_is_no_utf8() {
    assert_eq!(log_lines(CommandOutputSource::Stdout, &vec![0xfe, b'\n']), vec!["| \u{fffd}"]);
}

#[test]
fn command_line_is_built_in_order() {
    let mut command = CommandLine::new("flatpak");
    command.arg("build-update-repo");
    command.arg_with("--src-repo=", "/srv/upload");
    command.optional_arg("--gpg-sign==", &Some("KEY".to_string()));
    command.optional_arg("--gpg-homedir==", &None);
    command.arg("/srv/repo");
    assert_eq!(command.program, "flatpak");
    assert_eq!(
        command.args,
        vec!["build-update-repo", "--src-repo=/srv/upload", "--gpg-sign==KEY", "/srv/repo"]
    );
}
