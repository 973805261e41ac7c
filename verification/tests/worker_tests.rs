use typebridge::worker::{
    countdown_step, sleep_step, CountdownStep, JobAction, JobEvent, JobRun, SleepStep, WorkerMsg,
};

fn describe(m: &Option<WorkerMsg>) -> String {
    match m {
        None => "-".to_string(),
        Some(WorkerMsg::Waiting { remaining_ms }) => format!("waiting {remaining_ms}"),
        Some(WorkerMsg::Progress { typed, total }) => format!("progress {typed}/{total}"),
        Some(WorkerMsg::WindowChanged { typed, total }) => format!("changed {typed}/{total}"),
        Some(WorkerMsg::Finished) => "finished".to_string(),
        Some(WorkerMsg::Cancelled) => "cancelled".to_string(),
        Some(WorkerMsg::Error(e)) => format!("error {e}"),
    }
}

#[test]
fn a_job_types_every_character_once_then_finishes() {
    let mut job = JobRun::new(3, false);
    let s = job.next(JobEvent::Begin);
    assert_eq!(s.action, JobAction::Countdown);
    let s = job.next(JobEvent::CountdownEnded { completed: true });
    assert_eq!(s.action, JobAction::OpenTyper);
    let mut s = job.next(JobEvent::TyperOpened(Ok(())));
    let mut sent = Vec::new();
    let mut msgs = Vec::new();
    while s.action != JobAction::Stop {
        s = match s.action {
            JobAction::Check => job.next(JobEvent::Checked { cancelled: false, window: None }),
            JobAction::Send(i) => {
                sent.push(i);
                job.next(JobEvent::Sent(Ok(())))
            }
            JobAction::Sleep => job.next(JobEvent::Slept { completed: true }),
            other => panic!("unexpected {other:?}"),
        };
        msgs.push(describe(&s.msg));
    }
    assert_eq!(sent, vec![0, 1, 2]);
    assert_eq!(msgs.last().unwrap(), "finished");
    assert!(msgs.contains(&"progress 3/3".to_string()));
    assert_eq!(job.typed, 3);
}

#[test]
fn an_empty_text_finishes_at_once() {
    let mut job = JobRun::new(0, false);
    job.next(JobEvent::Begin);
    job.next(JobEvent::CountdownEnded { completed: true });
    let s = job.next(JobEvent::TyperOpened(Ok(())));
    assert_eq!(describe(&s.msg), "finished");
    assert_eq!(s.action, JobAction::Stop);
}

#[test]
fn progress_every_step() {
    let mut job = JobRun::new(400, false);
    assert_eq!(job.step, 2);
    job.next(JobEvent::Begin);
    job.next(JobEvent::CountdownEnded { completed: true });
    job.next(JobEvent::TyperOpened(Ok(())));
    job.next(JobEvent::Checked { cancelled: false, window: None });
    let s = job.next(JobEvent::Sent(Ok(())));
    assert_eq!(describe(&s.msg), "-");
    job.next(JobEvent::Slept { completed: true });
    job.next(JobEvent::Checked { cancelled: false, window: None });
    let s = job.next(JobEvent::Sent(Ok(())));
    assert_eq!(describe(&s.msg), "progress 2/400");
}

#[test]
fn focus_change_pauses_and_resumes_with_a_new_target() {
    let mut job = JobRun::new(2, true);
    job.next(JobEvent::Begin);
    job.next(JobEvent::CountdownEnded { completed: true });
    let s = job.next(JobEvent::TyperOpened(Ok(())));
    assert_eq!(s.action, JobAction::ReadTarget);
    job.next(JobEvent::Target(Some(7)));
    let s = job.next(JobEvent::Checked { cancelled: false, window: Some(9) });
    assert_eq!(describe(&s.msg), "changed 0/2");
    assert_eq!(s.action, JobAction::WaitResume);
    let s = job.next(JobEvent::ResumeEnded { cancelled: false });
    assert_eq!(s.action, JobAction::Countdown);
    let s = job.next(JobEvent::CountdownEnded { completed: true });
    assert_eq!(s.action, JobAction::ReadTarget);
    let s = job.next(JobEvent::Target(Some(9)));
    assert_eq!(s.action, JobAction::Check);
    let s = job.next(JobEvent::Checked { cancelled: false, window: Some(9) });
    assert_eq!(s.action, JobAction::Send(0));
    // an unknown window does not pause
    job.next(JobEvent::Sent(Ok(())));
    job.next(JobEvent::Slept { completed: true });
    let s = job.next(JobEvent::Checked { cancelled: false, window: None });
    assert_eq!(s.action, JobAction::Send(1));
}

#[test]
fn cancel_and_errors_stop_the_job() {
    let mut job = JobRun::new(2, false);
    job.next(JobEvent::Begin);
    let s = job.next(JobEvent::CountdownEnded { completed: false });
    assert_eq!((describe(&s.msg), s.action), ("cancelled".to_string(), JobAction::Stop));

    let mut job = JobRun::new(2, false);
    job.next(JobEvent::Begin);
    job.next(JobEvent::CountdownEnded { completed: true });
    let s = job.next(JobEvent::TyperOpened(Err("no display".to_string())));
    assert_eq!((describe(&s.msg), s.action), ("error no display".to_string(), JobAction::Stop));

    let mut job = JobRun::new(2, false);
    job.next(JobEvent::Begin);
    job.next(JobEvent::CountdownEnded { completed: true });
    job.next(JobEvent::TyperOpened(Ok(())));
    let s = job.next(JobEvent::Checked { cancelled: true, window: None });
    assert_eq!(describe(&s.msg), "cancelled");
    let mut job2 = JobRun::new(2, false);
    job2.next(JobEvent::Begin);
    job2.next(JobEvent::CountdownEnded { completed: true });
    job2.next(JobEvent::TyperOpened(Ok(())));
    job2.next(JobEvent::Checked { cancelled: false, window: None });
    let s = job2.next(JobEvent::Sent(Err("lost".to_string())));
    assert_eq!(describe(&s.msg), "error lost");
    assert_eq!(job2.typed, 0);
}

#[test]
fn countdown_and_sleep_steps() {
    assert_eq!(countdown_step(3_000_000_000, 0, false), CountdownStep::Wait { remaining_ms: 3000 });
    assert_eq!(countdown_step(3_000_000_000, 1_999_999, false), CountdownStep::Wait { remaining_ms: 2998 });
    assert_eq!(countdown_step(3_000_000_000, 3_000_000_000, false), CountdownStep::Done);
    assert_eq!(countdown_step(3_000_000_000, 10, true), CountdownStep::Cancelled);
    assert_eq!(countdown_step(0, 0, false), CountdownStep::Done);
    assert_eq!(sleep_step(25_000_000, false), SleepStep::Sleep { ns: 10_000_000 });
    assert_eq!(sleep_step(5_000_000, false), SleepStep::Sleep { ns: 5_000_000 });
    assert_eq!(sleep_step(0, false), SleepStep::Done);
    assert_eq!(sleep_step(5, true), SleepStep::Cancelled);
}
