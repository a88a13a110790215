use artsum::cli::verify::task::VerifyTaskBuilder;
use artsum::scheduler::{Dispatch, Scheduler};

fn run(max_workers: usize, total: usize) -> (Vec<usize>, usize) {
    let mut scheduler = Scheduler::new(max_workers, total);
    let mut started = Vec::new();
    let mut most = 0;
    loop {
        match scheduler.step() {
            Dispatch::Start(task) => started.push(task),
            Dispatch::Wait => {
                assert!(scheduler.running() > 0);
                scheduler.complete();
            }
            Dispatch::Finished => break,
        }
        assert!(scheduler.running() <= max_workers);
        most = most.max(scheduler.running());
    }
    assert!(scheduler.is_finished());
    assert_eq!(scheduler.running(), 0);
    (started, most)
}

#[test]
fn every_task_is_started_once_and_in_order() {
    let (started, most) = run(3, 10);
    assert_eq!(started, (0..10).collect::<Vec<usize>>());
    assert_eq!(most, 3);
}

#[test]
fn one_worker_runs_one_task_at_a_time() {
    let (started, most) = run(1, 5);
    assert_eq!(started.len(), 5);
    assert_eq!(most, 1);
}

#[test]
fn more_workers_than_tasks() {
    let (started, most) = run(8, 2);
    assert_eq!(started, vec![0, 1]);
    assert_eq!(most, 2);
}

#[test]
fn an_empty_run_is_finished_at_once() {
    let mut scheduler = Scheduler::new(4, 0);
    assert_eq!(scheduler.step(), Dispatch::Finished);
    assert!(scheduler.is_finished());
}

#[test]
fn a_full_pool_makes_the_caller_wait() {
    let mut scheduler = Scheduler::new(2, 3);
    assert_eq!(scheduler.step(), Dispatch::Start(0));
    assert_eq!(scheduler.step(), Dispatch::Start(1));
    assert_eq!(scheduler.step(), Dispatch::Wait);
    assert_eq!(scheduler.running(), 2);
    scheduler.complete();
    assert_eq!(scheduler.step(), Dispatch::Start(2));
    assert_eq!(scheduler.step(), Dispatch::Wait);
    scheduler.complete();
    assert_eq!(scheduler.step(), Dispatch::Wait);
    scheduler.complete();
    assert_eq!(scheduler.step(), Dispatch::Finished);
}

#[test]
fn builder_makes_a_scheduler_with_its_bound() {
    let builder = VerifyTaskBuilder::new(2, 64);
    assert_eq!(builder.max_workers, 2);
    assert_eq!(builder.chunk_size, 64);
    let mut scheduler = builder.scheduler(5);
    assert_eq!(scheduler.step(), Dispatch::Start(0));
    assert_eq!(scheduler.step(), Dispatch::Start(1));
    assert_eq!(scheduler.step(), Dispatch::Wait);
}
