use std::sync::Mutex;

use crossbeam::channel::{unbounded, Receiver};
use log_analyzer::category::LogType;
use log_analyzer::counters::Counters;
use log_analyzer::filter::FilterCriteria;
use log_analyzer::pipeline::{
    analyze, count_lines, filter_lines, summarize, worker_step, Dispatcher, Summary, WorkerState,
};

fn sample() -> Vec<String> {
    vec![
        String::from("INFO start"),
        String::from("WARN low disk"),
        String::from("ERROR disk full"),
        String::from("DEBUG noop"),
    ]
}

fn run_on_queue(lines: &Vec<String>, criteria: FilterCriteria, workers: usize) -> (Vec<String>, Summary) {
    let (tx, rx) = unbounded::<String>();
    let shared: Mutex<Counters> = Mutex::new(Counters::new());
    let mut dispatcher: Dispatcher = Dispatcher::new(criteria);
    let mut printed: Vec<String> = Vec::new();
    crossbeam::thread::scope(|scope| {
        for _ in 0..workers {
            let rx: Receiver<String> = rx.clone();
            let shared: &Mutex<Counters> = &shared;
            scope.spawn(move |_| {
                let mut state: WorkerState = WorkerState::Running;
                while state == WorkerState::Running {
                    let received: Option<String> = rx.recv().ok();
                    let mut counters = shared.lock().unwrap();
                    assert!(counters.can_record());
                    state = worker_step(state, received.as_deref(), &mut counters);
                }
            });
        }
        for line in lines {
            assert!(dispatcher.can_offer());
            if dispatcher.offer(line) {
                printed.push(line.clone());
                tx.send(line.clone()).unwrap();
            }
        }
        drop(tx);
    })
    .unwrap();
    let counters: Counters = *shared.lock().unwrap();
    (printed, summarize(dispatcher.total_lines(), &counters))
}

#[test]
fn run_without_criteria_keeps_and_counts_every_line() {
    let (kept, summary) = analyze(&sample(), &FilterCriteria::none());
    assert_eq!(kept, sample());
    assert_eq!(
        summary,
        Summary { total_lines: 4, total_processed: 4, info: 1, warn: 1, error: 1 }
    );
}

#[test]
fn run_with_error_category_keeps_the_error_line() {
    let criteria: FilterCriteria = FilterCriteria::from_words(Some("error"), None, None);
    let (kept, summary) = analyze(&sample(), &criteria);
    assert_eq!(kept, vec![String::from("ERROR disk full")]);
    assert_eq!(
        summary,
        Summary { total_lines: 1, total_processed: 1, info: 0, warn: 0, error: 1 }
    );
}

#[test]
fn run_with_disk_keyword_keeps_both_disk_lines() {
    let criteria: FilterCriteria = FilterCriteria::from_words(None, None, Some("disk"));
    let (kept, summary) = analyze(&sample(), &criteria);
    assert_eq!(kept, vec![String::from("WARN low disk"), String::from("ERROR disk full")]);
    assert_eq!(summary.total_lines, 2);
    assert_eq!(summary.error, 1);
    assert_eq!(summary.warn, 1);
    assert_eq!(summary.info, 0);
    assert_eq!(summary.total_processed, 2);
}

#[test]
fn run_on_empty_input_reports_zeros() {
    let lines: Vec<String> = Vec::new();
    let (kept, summary) = analyze(&lines, &FilterCriteria::none());
    assert!(kept.is_empty());
    assert_eq!(
        summary,
        Summary { total_lines: 0, total_processed: 0, info: 0, warn: 0, error: 0 }
    );
}

#[test]
fn run_on_empty_input_with_criteria_reports_zeros() {
    let lines: Vec<String> = Vec::new();
    let criteria: FilterCriteria = FilterCriteria::from_words(Some("warn"), Some("2024"), Some("disk"));
    let (kept, summary) = analyze(&lines, &criteria);
    assert!(kept.is_empty());
    assert_eq!(
        summary,
        Summary { total_lines: 0, total_processed: 0, info: 0, warn: 0, error: 0 }
    );
}

#[test]
fn filter_lines_keeps_source_order() {
    let lines: Vec<String> = vec![
        String::from("ERROR 3"),
        String::from("INFO 1"),
        String::from("ERROR 1"),
        String::from("WARN 2"),
        String::from("ERROR 2"),
    ];
    let criteria: FilterCriteria = FilterCriteria::from_words(Some("error"), None, None);
    assert_eq!(
        filter_lines(&lines, &criteria),
        vec![String::from("ERROR 3"), String::from("ERROR 1"), String::from("ERROR 2")]
    );
}

#[test]
fn filter_lines_keeps_repeated_lines_as_often_as_they_stand() {
    let lines: Vec<String> = vec![
        String::from("WARN same"),
        String::from("INFO other"),
        String::from("WARN same"),
    ];
    let criteria: FilterCriteria = FilterCriteria::from_words(None, None, Some("SAME"));
    assert_eq!(
        filter_lines(&lines, &criteria),
        vec![String::from("WARN same"), String::from("WARN same")]
    );
}

#[test]
fn count_lines_counts_each_severity() {
    let counters: Counters = count_lines(&sample());
    assert_eq!(counters.info_count(), 1);
    assert_eq!(counters.warn_count(), 1);
    assert_eq!(counters.error_count(), 1);
    assert_eq!(counters.total_processed(), 4);
}

#[test]
fn count_lines_of_nothing_is_zero() {
    let lines: Vec<String> = Vec::new();
    assert_eq!(count_lines(&lines), Counters::new());
}

#[test]
fn summary_copies_the_figures() {
    let mut counters: Counters = Counters::new();
    counters.record(LogType::Info);
    counters.record(LogType::Info);
    counters.record(LogType::Error);
    counters.record(LogType::Other);
    assert_eq!(
        summarize(7, &counters),
        Summary { total_lines: 7, total_processed: 4, info: 2, warn: 0, error: 1 }
    );
}

#[test]
fn dispatcher_counts_what_it_sends_on() {
    let criteria: FilterCriteria = FilterCriteria::from_words(None, None, Some("disk"));
    let mut dispatcher: Dispatcher = Dispatcher::new(criteria);
    assert_eq!(dispatcher.total_lines(), 0);
    assert!(dispatcher.can_offer());
    assert!(!dispatcher.offer("INFO start"));
    assert_eq!(dispatcher.total_lines(), 0);
    assert!(dispatcher.offer("WARN low disk"));
    assert_eq!(dispatcher.total_lines(), 1);
    assert!(dispatcher.offer("ERROR disk full"));
    assert_eq!(dispatcher.total_lines(), 2);
    assert!(!dispatcher.offer("DEBUG noop"));
    assert_eq!(dispatcher.total_lines(), 2);
}

#[test]
fn dispatcher_agrees_with_filter_lines() {
    let criteria: FilterCriteria = FilterCriteria::from_words(Some("warn"), None, None);
    let mut dispatcher: Dispatcher = Dispatcher::new(FilterCriteria::from_words(Some("warn"), None, None));
    let mut sent: Vec<String> = Vec::new();
    for line in sample() {
        if dispatcher.offer(&line) {
            sent.push(line);
        }
    }
    assert_eq!(sent, filter_lines(&sample(), &criteria));
    assert_eq!(dispatcher.total_lines(), sent.len());
}

#[test]
fn running_worker_counts_a_line_and_runs_on() {
    let mut counters: Counters = Counters::new();
    let next: WorkerState = worker_step(WorkerState::Running, Some("WARN low disk"), &mut counters);
    assert_eq!(next, WorkerState::Running);
    assert_eq!(counters.warn_count(), 1);
    assert_eq!(counters.total_processed(), 1);
}

#[test]
fn running_worker_terminates_on_closed_queue() {
    let mut counters: Counters = Counters::new();
    counters.record(LogType::Info);
    let next: WorkerState = worker_step(WorkerState::Running, None, &mut counters);
    assert_eq!(next, WorkerState::Terminated);
    assert_eq!(counters.info_count(), 1);
    assert_eq!(counters.total_processed(), 1);
}

#[test]
fn terminated_worker_stays_terminated_and_counts_nothing() {
    let mut counters: Counters = Counters::new();
    let next: WorkerState = worker_step(WorkerState::Terminated, Some("ERROR late"), &mut counters);
    assert_eq!(next, WorkerState::Terminated);
    assert_eq!(counters, Counters::new());
    let next: WorkerState = worker_step(WorkerState::Terminated, None, &mut counters);
    assert_eq!(next, WorkerState::Terminated);
    assert_eq!(counters, Counters::new());
}

#[test]
fn workers_with_counters_of_their_own_add_up_to_the_whole() {
    let lines: Vec<String> = vec![
        String::from("INFO a"),
        String::from("WARN b"),
        String::from("DEBUG c"),
        String::from("ERROR d"),
        String::from("INFO e"),
        String::from("ERROR f"),
        String::from("INFO g"),
    ];
    for workers in 1usize..6 {
        let mut shares: Vec<Vec<String>> = Vec::new();
        for _ in 0..workers {
            shares.push(Vec::new());
        }
        for (index, line) in lines.iter().enumerate() {
            shares[(index * 3) % workers].push(line.clone());
        }
        let mut info: usize = 0;
        let mut warn: usize = 0;
        let mut error: usize = 0;
        let mut total: usize = 0;
        for share in &shares {
            let counters: Counters = count_lines(share);
            info += counters.info_count();
            warn += counters.warn_count();
            error += counters.error_count();
            total += counters.total_processed();
        }
        assert_eq!((info, warn, error, total), (3, 1, 2, 7));
    }
}

#[test]
fn queue_with_one_receiver_delivers_every_line_once() {
    let (tx, rx) = unbounded::<String>();
    for line in sample() {
        tx.send(line).unwrap();
    }
    drop(tx);
    let mut counters: Counters = Counters::new();
    let mut state: WorkerState = WorkerState::Running;
    while state == WorkerState::Running {
        let received: Option<String> = rx.recv().ok();
        state = worker_step(state, received.as_deref(), &mut counters);
    }
    assert_eq!(counters, count_lines(&sample()));
}

#[test]
fn queue_with_four_receivers_in_turn_counts_every_line_once() {
    let (tx, rx) = unbounded::<String>();
    let receivers: Vec<Receiver<String>> = vec![rx.clone(), rx.clone(), rx.clone(), rx];
    for round in 0..5 {
        for line in sample() {
            tx.send(format!("{} {}", line, round)).unwrap();
        }
    }
    drop(tx);
    let mut counters: Counters = Counters::new();
    let mut states: Vec<WorkerState> = vec![WorkerState::Running; 4];
    while states.iter().any(|state| *state == WorkerState::Running) {
        for (index, receiver) in receivers.iter().enumerate() {
            let received: Option<String> = receiver.recv().ok();
            states[index] = worker_step(states[index], received.as_deref(), &mut counters);
        }
    }
    assert_eq!(counters.total_processed(), 20);
    assert_eq!(counters.info_count(), 5);
    assert_eq!(counters.warn_count(), 5);
    assert_eq!(counters.error_count(), 5);
}

#[test]
fn threaded_run_reports_what_the_plain_run_reports() {
    let mut lines: Vec<String> = Vec::new();
    for round in 0..50 {
        for line in sample() {
            lines.push(format!("{} #{}", line, round));
        }
    }
    let expected = analyze(&lines, &FilterCriteria::from_words(None, None, Some("DISK")));
    assert_eq!(expected.1.total_lines, 100);
    for workers in [1usize, 2, 4, 7] {
        for _ in 0..5 {
            let criteria: FilterCriteria = FilterCriteria::from_words(None, None, Some("DISK"));
            let (printed, summary) = run_on_queue(&lines, criteria, workers);
            assert_eq!(printed, expected.0);
            assert_eq!(summary, expected.1);
            assert_eq!(summary.total_processed, summary.total_lines);
        }
    }
}

#[test]
fn threaded_run_on_the_sample_reports_each_severity_once() {
    let (printed, summary) = run_on_queue(&sample(), FilterCriteria::none(), 4);
    assert_eq!(printed, sample());
    assert_eq!(
        summary,
        Summary { total_lines: 4, total_processed: 4, info: 1, warn: 1, error: 1 }
    );
}

#[test]
fn threaded_run_on_empty_input_reports_zeros() {
    let lines: Vec<String> = Vec::new();
    let (printed, summary) = run_on_queue(&lines, FilterCriteria::none(), 4);
    assert!(printed.is_empty());
    assert_eq!(
        summary,
        Summary { total_lines: 0, total_processed: 0, info: 0, warn: 0, error: 0 }
    );
}
