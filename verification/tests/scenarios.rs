use price_sampler::aggregator::AggregatorData;
use price_sampler::sampler::FetchError;
use price_sampler::orchestrator::{Orchestrator, RunAction, RunConfig, RunEvent};
use price_sampler::store::{notice_for, result_text, store_state};
use price_sampler::worker::{Worker, WorkerAction, WorkerEvent};

fn plus(a: f64, b: f64) -> f64 {
    a + b
}

fn over(sum: f64, count: usize) -> f64 {
    sum / count as f64
}

/// Drives one worker to its end against a clock that advances one second
/// per poll and a feed that always answers `price`. Hands back the local
/// average and the number of fetches.
fn drive_worker(
    worker: &mut Worker<f64>,
    aggregator: &mut AggregatorData<f64>,
    price: Result<f64, FetchError>,
) -> (Option<f64>, usize) {
    let mut clock: u64 = 0;
    let mut fetches: usize = 0;
    let mut average = None;
    let mut action = worker.pending();
    loop {
        let event = match action {
            WorkerAction::ReadClock => WorkerEvent::Clock(clock),
            WorkerAction::Fetch => {
                fetches += 1;
                WorkerEvent::Sample(price)
            }
            WorkerAction::Sleep => {
                clock += 1;
                WorkerEvent::Slept
            }
            WorkerAction::Contribute => {
                average = worker.contribute(aggregator, over).map(|made| made.local_average);
                action = worker.pending();
                continue;
            }
            WorkerAction::Stop => return (average, fetches),
        };
        action = worker.step(event, plus);
    }
}

/// Runs a whole run, one worker after the other, and hands back the local
/// averages, the number of fetches and the text that would be persisted.
fn drive_run(config: RunConfig, price: Result<f64, FetchError>) -> (Vec<f64>, usize, usize, String) {
    let mut run = Orchestrator::start(config);
    let deadline = run.deadline();
    let mut aggregator = AggregatorData::new();
    let mut workers: Vec<Worker<f64>> = Vec::new();
    let mut averages = Vec::new();
    let mut fetches = 0;
    let mut held_at_reduction = 0;
    let mut text = String::new();
    let mut action = run.pending();
    loop {
        let event = match action {
            RunAction::Spawn(id) => {
                workers.push(Worker::new(id, deadline, 0.0));
                RunEvent::Spawned
            }
            RunAction::Join(id) => {
                let (average, fetched) = drive_worker(&mut workers[id - 1], &mut aggregator, price);
                averages.push(average.unwrap());
                fetches += fetched;
                RunEvent::Joined
            }
            RunAction::Reduce => {
                held_at_reduction = aggregator.len();
                let final_aggregate = aggregator.calculate_final_aggregate(0.0, plus, over);
                text = result_text(&format!("{}", final_aggregate));
                RunEvent::Persisted
            }
            RunAction::Finish => return (averages, fetches, held_at_reduction, text),
            RunAction::Abort => panic!("the run was given up"),
        };
        action = run.step(event);
    }
}

#[test]
fn run_of_no_length_fetches_nothing_and_persists_not_a_number() {
    let (averages, fetches, held, text) = drive_run(RunConfig::new(0), Ok(100.0));
    assert_eq!(fetches, 0);
    assert_eq!(averages.len(), 5);
    assert!(averages.iter().all(|average| average.is_nan()));
    assert_eq!(held, 5);
    assert_eq!(text, "Final aggregate of USD prices of BTC: NaN\n");
    assert!(text.contains("NaN"));
}

#[test]
fn steady_feed_of_one_hundred_persists_one_hundred() {
    let (averages, fetches, held, text) = drive_run(RunConfig::new(3), Ok(100.0));
    assert_eq!(averages, vec![100.0, 100.0, 100.0, 100.0, 100.0]);
    assert_eq!(fetches, 15);
    assert_eq!(held, 5);
    assert_eq!(text, "Final aggregate of USD prices of BTC: 100\n");
    assert_eq!(text.lines().next(), Some("Final aggregate of USD prices of BTC: 100"));
}

#[test]
fn feed_that_always_fails_persists_not_a_number() {
    let (averages, fetches, held, text) = drive_run(RunConfig::new(2), Err(FetchError::MalformedResponse));
    assert_eq!(fetches, 10);
    assert_eq!(held, 5);
    assert!(averages.iter().all(|average| average.is_nan()));
    assert_eq!(text, "Final aggregate of USD prices of BTC: NaN\n");
}

#[test]
fn every_run_holds_one_average_per_worker_at_the_reduction() {
    for worker_count in [1usize, 2, 5, 17, 50] {
        for duration in [0u64, 1, 4] {
            let config = RunConfig::with_workers(worker_count, duration).unwrap();
            let (averages, fetches, held, _) = drive_run(config, Ok(1.0));
            assert_eq!(held, worker_count);
            assert_eq!(averages.len(), worker_count);
            assert_eq!(fetches, worker_count * duration as usize);
        }
    }
}

#[test]
fn read_mode_tells_a_missing_store_from_an_empty_one() {
    let before_any_run = notice_for(store_state(None)).unwrap();
    let after_emptying = notice_for(store_state(Some(0))).unwrap();
    assert!(before_any_run.contains("does not exist"));
    assert!(after_emptying.contains("is empty"));
    assert_ne!(before_any_run, after_emptying);
    let after_a_run = result_text("100");
    assert_eq!(notice_for(store_state(Some(after_a_run.len() as u64))), None);
}
