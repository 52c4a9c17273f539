use ci_monitor::forge::{ForgeError, ForgeTask, ForgeTaskOutcome};
use ci_monitor::scheduler::{Action, Scheduler, DEFAULT_WORKERS, JITTER_SECONDS, PERMITS_PER_SECOND};

fn started(action: Action) -> ForgeTask {
    match action {
        Action::Start(task) => task,
        other => panic!("unexpected action: {:?}", other),
    }
}

#[test]
fn scheduler_constants() {
    assert_eq!(DEFAULT_WORKERS, 50);
    assert_eq!(PERMITS_PER_SECOND, 50);
    assert_eq!(JITTER_SECONDS, 2);
}

#[test]
fn empty_scheduler_finishes() {
    let mut scheduler = Scheduler::new(2);
    assert!(matches!(scheduler.next_action(), Action::Finish));
    assert_eq!(scheduler.queued(), 0);
    assert_eq!(scheduler.in_flight(), 0);
}

#[test]
fn tasks_start_in_order_up_to_the_cap() {
    let mut scheduler = Scheduler::new(2);
    scheduler.enqueue(ForgeTask::DiscoverRunners);
    scheduler.enqueue(ForgeTask::UpdateProject { project: 13 });
    scheduler.enqueue(ForgeTask::UpdateUser { user: 5 });
    assert_eq!(scheduler.queued(), 3);
    assert_eq!(started(scheduler.next_action()), ForgeTask::DiscoverRunners);
    assert_eq!(started(scheduler.next_action()), ForgeTask::UpdateProject { project: 13 });
    assert_eq!(scheduler.in_flight(), 2);
    // Both workers are busy: the third task waits.
    assert!(matches!(scheduler.next_action(), Action::Wait));
    assert_eq!(scheduler.queued(), 1);

    // The first worker found more to do.
    scheduler.worker_done(Ok(ForgeTaskOutcome::with_tasks(vec![
        ForgeTask::UpdateRunner { id: 3 },
        ForgeTask::UpdateRunner { id: 1 },
    ])));
    assert_eq!(scheduler.in_flight(), 1);
    assert_eq!(scheduler.queued(), 3);
    assert_eq!(started(scheduler.next_action()), ForgeTask::UpdateUser { user: 5 });
    assert!(matches!(scheduler.next_action(), Action::Wait));

    // A failure adds nothing.
    scheduler.worker_done(Err(ForgeError::Connection { details: "down".to_string() }));
    assert_eq!(scheduler.queued(), 2);
    assert_eq!(started(scheduler.next_action()), ForgeTask::UpdateRunner { id: 3 });
    scheduler.worker_done(Ok(ForgeTaskOutcome::new()));
    assert_eq!(started(scheduler.next_action()), ForgeTask::UpdateRunner { id: 1 });
    assert!(matches!(scheduler.next_action(), Action::Wait));
    scheduler.worker_done(Ok(ForgeTaskOutcome::default()));
    assert!(matches!(scheduler.next_action(), Action::Wait));
    scheduler.worker_done(Ok(ForgeTaskOutcome::new()));
    assert!(matches!(scheduler.next_action(), Action::Finish));
    assert_eq!(scheduler.in_flight(), 0);
    assert_eq!(scheduler.queued(), 0);
}

#[test]
fn one_worker_runs_the_queue_to_the_end() {
    let mut scheduler = Scheduler::new(1);
    scheduler.enqueue(ForgeTask::UpdateProject { project: 1 });
    let mut seen = Vec::new();
    loop {
        match scheduler.next_action() {
            Action::Start(task) => {
                let follow_ups = match &task {
                    ForgeTask::UpdateProject { project } if *project < 4 => vec![
                        ForgeTask::UpdateProject { project: project + 1 },
                        ForgeTask::DiscoverPipelines { project: *project },
                    ],
                    _ => Vec::new(),
                };
                seen.push(task);
                scheduler.worker_done(Ok(ForgeTaskOutcome::with_tasks(follow_ups)));
            },
            Action::Wait => panic!("no worker is in flight"),
            Action::Finish => break,
        }
    }
    assert_eq!(
        seen,
        vec![
            ForgeTask::UpdateProject { project: 1 },
            ForgeTask::UpdateProject { project: 2 },
            ForgeTask::DiscoverPipelines { project: 1 },
            ForgeTask::UpdateProject { project: 3 },
            ForgeTask::DiscoverPipelines { project: 2 },
            ForgeTask::UpdateProject { project: 4 },
            ForgeTask::DiscoverPipelines { project: 3 },
        ]
    );
}
