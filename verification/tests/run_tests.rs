use dlm::args::{get_args, CommandLine};
use dlm::batch::{count_non_empty_lines, startup_messages, strip_trailing_slash, Admission, Batch};
use dlm::dlm_error::DlmError;
use dlm::progress_bar_manager::ProgressBarManager;
use dlm::user_agents::{random_user_agent, UserAgent};

fn command_line() -> CommandLine {
    CommandLine {
        max_concurrent_downloads: 2,
        input_file: " links.txt ".to_string(),
        output_dir: "\tout".to_string(),
        user_agent: None,
        random_user_agent: false,
        proxy: None,
        retry: 10,
        connection_timeout_secs: 10,
        accept: None,
        accept_invalid_certs: false,
    }
}

fn lines(texts: &[&str]) -> Vec<Result<String, String>> {
    texts.iter().map(|t| Ok(t.to_string())).collect()
}

#[test]
fn get_random_user_agent() {
    let ua = random_user_agent();
    assert!(ua.starts_with("Mozilla/5.0"));
}

#[test]
fn random_user_agent_is_a_browser_of_the_pool() {
    for _ in 0..64 {
        let ua = random_user_agent();
        assert!(ua.len() > 60);
        assert!(ua.contains("Gecko"));
    }
}

#[test]
fn arguments_are_taken_over() {
    let args = get_args(
        CommandLine {
            proxy: Some("http://proxy:8080".to_string()),
            accept: Some("*/*".to_string()),
            accept_invalid_certs: true,
            retry: 3,
            connection_timeout_secs: 7,
            ..command_line()
        },
        true,
        true,
    )
    .unwrap();
    assert_eq!(args.input_file, "links.txt");
    assert_eq!(args.output_dir, "out");
    assert_eq!(args.max_concurrent_downloads, 2);
    assert!(args.user_agent.is_none());
    assert_eq!(args.proxy, Some("http://proxy:8080".to_string()));
    assert_eq!(args.retry, 3);
    assert_eq!(args.connection_timeout_secs, 7);
    assert_eq!(args.accept, Some("*/*".to_string()));
    assert!(args.accept_invalid_certs);
}

#[test]
fn named_user_agent_wins_over_a_random_one() {
    let args = get_args(
        CommandLine { user_agent: Some("curl/8".to_string()), random_user_agent: true, ..command_line() },
        true,
        true,
    )
    .unwrap();
    assert!(matches!(args.user_agent, Some(UserAgent::CustomUserAgent(ua)) if ua == "curl/8"));
    let args = get_args(CommandLine { random_user_agent: true, ..command_line() }, true, true).unwrap();
    assert!(matches!(args.user_agent, Some(UserAgent::RandomUserAgent)));
}

#[test]
fn arguments_are_refused_in_order() {
    let zero = CommandLine { max_concurrent_downloads: 0, ..command_line() };
    match get_args(zero, false, false) {
        Err(DlmError::CliArgumentError { message }) => {
            assert_eq!(message, "'maxConcurrentDownloads' must be positive")
        }
        _ => panic!("a limit of zero should be refused"),
    }
    match get_args(command_line(), false, false) {
        Err(DlmError::CliArgumentError { message }) => {
            assert_eq!(message, "'inputFile' does not exist")
        }
        _ => panic!("a missing input file should be refused"),
    }
    match get_args(command_line(), true, false) {
        Err(DlmError::CliArgumentError { message }) => {
            assert_eq!(message, "'outputDir' does not exist")
        }
        _ => panic!("a missing output directory should be refused"),
    }
}

#[test]
fn lines_that_name_a_url_are_counted() {
    assert_eq!(count_non_empty_lines(&Vec::new()), 0);
    assert_eq!(count_non_empty_lines(&lines(&["", "  ", "\t"])), 0);
    assert_eq!(count_non_empty_lines(&lines(&["https://a/b.txt", "", " https://c/d ", " "])), 2);
    let mut with_failure = lines(&["https://a/b.txt"]);
    with_failure.push(Err("stream did not contain valid UTF-8".to_string()));
    assert_eq!(count_non_empty_lines(&with_failure), 1);
}

#[test]
fn empty_input_starts_no_run() {
    for input in [Vec::new(), lines(&["", "   "]), vec![Err("x".to_string())]] {
        assert!(matches!(Batch::start(&input, 4), Err(DlmError::EmptyInputFile)));
    }
}

#[test]
fn run_has_no_more_slots_than_jobs() {
    let batch = Batch::start(&lines(&["a", "", "b", "c"]), 8).unwrap();
    assert_eq!(batch.length(), 3);
    assert_eq!(batch.slot_count(), 3);
    assert_eq!(batch.position(), 0);
    assert!(!batch.is_stopped());
    let batch = Batch::start(&lines(&["a", "b", "c"]), 2).unwrap();
    assert_eq!(batch.slot_count(), 2);
    let pbm = ProgressBarManager::init(0, 5);
    assert_eq!(pbm.slot_count(), 0);
}

#[test]
fn startup_lines() {
    let (starting, found) = startup_messages(2, 17, "links.txt");
    assert_eq!(starting, "Starting dlm with at most 2 concurrent downloads");
    assert_eq!(found, "Found 17 URLs in input file links.txt");
}

#[test]
fn one_trailing_slash_is_removed_from_the_output_directory() {
    assert_eq!(strip_trailing_slash("out/"), "out");
    assert_eq!(strip_trailing_slash("out"), "out");
    assert_eq!(strip_trailing_slash("out//"), "out/");
    assert_eq!(strip_trailing_slash("/"), "");
    assert_eq!(strip_trailing_slash(""), "");
}

#[test]
fn slots_are_handed_out_and_taken_back() {
    let mut pbm = ProgressBarManager::init(2, 10);
    assert_eq!(pbm.in_flight(), 0);
    assert!(!pbm.holds(0));
    let first = pbm.acquire().unwrap();
    let second = pbm.acquire().unwrap();
    assert_eq!((first, second), (0, 1));
    assert!(pbm.holds(0) && pbm.holds(1) && !pbm.holds(2));
    assert_eq!(pbm.in_flight(), 2);
    assert_eq!(pbm.acquire(), None);
    assert_eq!(pbm.finish_all(), None);
    assert_eq!(pbm.release(second), format!("{:<35}", "pending"));
    assert!(!pbm.holds(second));
    assert_eq!(pbm.in_flight(), 1);
    assert_eq!(pbm.acquire(), Some(1));
    pbm.release(first);
    pbm.release(second);
    assert_eq!(pbm.in_flight(), 0);
    assert_eq!(pbm.finish_all(), Some(vec![0, 1]));
    assert_eq!(pbm.finish_all(), None);
    assert_eq!(pbm.acquire(), None);
    assert!(!pbm.holds(0));
    assert_eq!(pbm.in_flight(), 0);
}

#[test]
fn progress_is_counted() {
    let mut pbm = ProgressBarManager::init(1, 2);
    pbm.increment_global_progress();
    pbm.increment_global_progress();
    assert_eq!(pbm.position(), 2);
    assert_eq!(pbm.length(), 2);
}

#[test]
fn labels_and_log_lines() {
    assert_eq!(ProgressBarManager::reset_progress_bar(), format!("{:<35}", "pending"));
    assert_eq!(ProgressBarManager::message_progress_bar("a.txt"), format!("{:<35}", "a.txt"));
    assert_eq!(
        ProgressBarManager::log_above_progress_bar("2024-05-01 10:20:30", "Completed a.txt [1.00KiB]"),
        "[2024-05-01 10:20:30] Completed a.txt [1.00KiB]"
    );
}

#[test]
fn log_lines_carry_the_time_of_now() {
    let line = ProgressBarManager::log_above_progress_bars("Skipping empty line");
    assert!(line.starts_with('['));
    assert!(line.ends_with("] Skipping empty line"));
    let timestamp = &line[1..line.len() - "] Skipping empty line".len()];
    let shape: String = timestamp
        .chars()
        .map(|c| if c.is_ascii_digit() { '9' } else { c })
        .collect();
    assert_eq!(shape, "9999-99-99 99:99:99");
}

#[test]
fn lines_become_reports_or_downloads() {
    let mut batch = Batch::start(&lines(&["a", "b"]), 2).unwrap();
    match batch.consider(Ok("  ".to_string())) {
        Admission::Report(message) => assert_eq!(message, "Skipping empty line"),
        _ => panic!("a blank line should be reported"),
    }
    assert_eq!(batch.position(), 1);
    match batch.consider(Err("stream did not contain valid UTF-8".to_string())) {
        Admission::Report(message) => assert_eq!(
            message,
            "Error with links iterator stream did not contain valid UTF-8"
        ),
        _ => panic!("an unreadable line should be reported"),
    }
    assert_eq!(batch.position(), 2);
    match batch.consider(Ok(" https://host/a.txt".to_string())) {
        Admission::Download(link) => assert_eq!(link, " https://host/a.txt"),
        _ => panic!("a URL should be downloaded"),
    }
    assert_eq!(batch.position(), 2);
}

#[test]
fn cancelled_run_admits_nothing_and_fails() {
    let mut batch = Batch::start(&lines(&["a", "b"]), 2).unwrap();
    batch.interrupt();
    batch.interrupt();
    assert!(batch.is_stopped());
    assert!(matches!(batch.consider(Ok("https://host/a.txt".to_string())), Admission::Refused));
    assert!(matches!(batch.consider(Ok("".to_string())), Admission::Refused));
    assert!(matches!(batch.consider(Err("bad bytes".to_string())), Admission::Refused));
    assert_eq!(batch.position(), 0);
    assert_eq!(batch.conclude("https://host/b.txt", Err(DlmError::ProgramInterrupted)), None);
    assert_eq!(batch.position(), 0);
    let (closed, outcome) = batch.finish();
    assert_eq!(closed, Some(vec![0, 1]));
    assert!(matches!(outcome, Err(DlmError::ProgramInterrupted)));
    assert_eq!(batch.slot_count(), 2);
    assert_eq!(batch.in_flight(), 0);
    assert_eq!(batch.acquire(), None);
}

#[test]
fn cancelled_run_closes_its_slots_once_they_are_back() {
    let mut batch = Batch::start(&lines(&["a", "b", "c"]), 3).unwrap();
    let first = batch.acquire().unwrap();
    let second = batch.acquire().unwrap();
    batch.interrupt();
    let (closed, outcome) = batch.finish();
    assert_eq!(closed, None);
    assert!(matches!(outcome, Err(DlmError::ProgramInterrupted)));
    assert_eq!(batch.in_flight(), 2);
    batch.release(second);
    let (closed, outcome) = batch.finish();
    assert_eq!(closed, None);
    assert!(matches!(outcome, Err(DlmError::ProgramInterrupted)));
    batch.release(first);
    let (closed, outcome) = batch.finish();
    assert_eq!(closed, Some(vec![2, 1, 0]));
    assert!(matches!(outcome, Err(DlmError::ProgramInterrupted)));
    let (closed, outcome) = batch.finish();
    assert_eq!(closed, None);
    assert!(matches!(outcome, Err(DlmError::ProgramInterrupted)));
    assert_eq!(batch.acquire(), None);
}

#[test]
fn outcomes_are_reported_and_counted() {
    let mut batch = Batch::start(&lines(&["a", "b"]), 2).unwrap();
    assert_eq!(
        batch.conclude("https://host/a.txt", Ok("Completed a.txt [1.00KiB]".to_string())),
        Some("Completed a.txt [1.00KiB]".to_string())
    );
    assert_eq!(batch.position(), 1);
    assert_eq!(
        batch.conclude(
            "https://host/b.txt",
            Err(DlmError::ResponseStatusNotSuccess { status_code: "404 Not Found".to_string() })
        ),
        Some(
            "Unrecoverable error while processing https://host/b.txt: response status not success - \"404 Not Found\""
                .to_string()
        )
    );
    assert_eq!(batch.position(), 2);
}

#[test]
fn run_ends_when_every_slot_is_back() {
    let mut batch = Batch::start(&lines(&["a", "b", "c"]), 2).unwrap();
    let slot = batch.acquire().unwrap();
    assert!(batch.holds(slot));
    assert_eq!(batch.in_flight(), 1);
    let (closed, outcome) = batch.finish();
    assert_eq!(closed, None);
    assert!(outcome.is_ok());
    assert_eq!(batch.release(slot), format!("{:<35}", "pending"));
    assert_eq!(batch.in_flight(), 0);
    let (closed, outcome) = batch.finish();
    assert_eq!(closed, Some(vec![1, 0]));
    assert!(outcome.is_ok());
    let (closed, outcome) = batch.finish();
    assert_eq!(closed, None);
    assert!(outcome.is_ok());
    assert_eq!(batch.acquire(), None);
}
