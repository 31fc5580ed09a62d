use filetime::FileTime;
use tinge::args::Args;
use tinge::error::UsageError;
use tinge::session::Outcome;
use tinge::session::Reply;
use tinge::session::Request;
use tinge::session::Session;
use tinge::session::Stage;
use tinge::times::choose_times;
use tinge::times::Times;

fn times(accessed: i64, modified: i64) -> Times {
    Times {
        accessed: FileTime::from_unix_time(accessed, 5),
        modified: FileTime::from_unix_time(modified, 7),
    }
}

/// A file system that answers from what it holds.
struct Disk {
    target: Option<Times>,
    creatable: bool,
    probe: Times,
    reference: Option<Times>,
}

fn disk() -> Disk {
    Disk { target: Some(times(100, 200)), creatable: true, probe: times(900, 901), reference: None }
}

fn options(line: &[&str]) -> Args {
    let tokens: Vec<String> = line.iter().map(|t| t.to_string()).collect();
    Args::parse(&tokens).unwrap()
}

/// Drives a session over the disk and gives the requests it made.
fn drive(args: &Args, disk: &mut Disk) -> Vec<Request> {
    let mut session = Session::new(args);
    let mut made = Vec::new();
    for _ in 0..32 {
        let request = session.request();
        made.push(request);
        let reply = match request {
            Request::CreateProbe => Reply::Done,
            Request::FindTarget | Request::ConfirmTarget => Reply::Exists(disk.target.is_some()),
            Request::CreateTarget => {
                if disk.creatable && disk.target.is_none() {
                    disk.target = Some(disk.probe);
                }
                Reply::Done
            }
            Request::ReadTarget => Reply::Times(disk.target.unwrap()),
            Request::ReadProbe => Reply::Times(disk.probe),
            Request::FindReference => Reply::Exists(disk.reference.is_some()),
            Request::ReadReference => Reply::Times(disk.reference.unwrap()),
            Request::SetTimes(t) => {
                disk.target = Some(t);
                Reply::Done
            }
            Request::Finish(_) => return made,
        };
        session = session.step(reply);
    }
    panic!("the run did not end");
}

fn ending(made: &[Request]) -> Outcome {
    match made.last() {
        Some(Request::Finish(outcome)) => *outcome,
        _ => panic!("the run did not end"),
    }
}

#[test]
fn a_missing_target_is_created() {
    let mut d = Disk { target: None, ..disk() };
    let made = drive(&options(&["f"]), &mut d);
    assert_eq!(
        made,
        vec![
            Request::CreateProbe,
            Request::FindTarget,
            Request::CreateTarget,
            Request::ConfirmTarget,
            Request::ReadTarget,
            Request::ReadProbe,
            Request::Finish(Outcome::Success),
        ]
    );
    assert!(d.target.is_some());
}

#[test]
fn a_missing_target_is_created_whatever_the_other_flags() {
    for line in [&["-a", "f"][..], &["-m", "f"], &["-am", "f"], &["-r", "ref", "f"]] {
        let mut d = Disk { target: None, reference: Some(times(1, 2)), ..disk() };
        let made = drive(&options(line), &mut d);
        assert_eq!(made[2], Request::CreateTarget);
        assert_eq!(ending(&made), Outcome::Success);
        assert!(d.target.is_some());
    }
}

#[test]
fn no_create_does_not_create_a_missing_target() {
    let mut d = Disk { target: None, ..disk() };
    let made = drive(&options(&["-c", "f"]), &mut d);
    assert_eq!(
        made,
        vec![
            Request::CreateProbe,
            Request::FindTarget,
            Request::Finish(Outcome::CreationFailure),
        ]
    );
    assert_eq!(d.target, None);
    assert_ne!(ending(&made).exit_code(), 0);
}

#[test]
fn no_create_fails_on_a_missing_target_whatever_the_other_flags() {
    for line in [&["-ca", "f"][..], &["-acm", "f"], &["-c", "-r", "ref", "f"], &["-camr", "z", "f"]] {
        let mut d = Disk { target: None, reference: Some(times(1, 2)), ..disk() };
        let made = drive(&options(line), &mut d);
        assert_eq!(
            made,
            vec![
                Request::CreateProbe,
                Request::FindTarget,
                Request::Finish(Outcome::CreationFailure),
            ]
        );
        assert_eq!(d.target, None);
    }
}

#[test]
fn a_missing_reference_is_refused_after_the_target_was_created() {
    let mut d = Disk { target: None, ..disk() };
    let made = drive(&options(&["-am", "-r", "z", "x"]), &mut d);
    assert_eq!(
        made,
        vec![
            Request::CreateProbe,
            Request::FindTarget,
            Request::CreateTarget,
            Request::ConfirmTarget,
            Request::ReadTarget,
            Request::ReadProbe,
            Request::FindReference,
            Request::Finish(Outcome::Usage(UsageError::ReferenceUnreadable)),
        ]
    );
    assert_ne!(ending(&made).exit_code(), 0);
    assert_eq!(d.target, Some(times(900, 901)));
}

#[test]
fn a_target_that_cannot_be_created_fails_the_run() {
    let mut d = Disk { target: None, creatable: false, ..disk() };
    let made = drive(&options(&["-am", "f"]), &mut d);
    assert_eq!(
        made,
        vec![
            Request::CreateProbe,
            Request::FindTarget,
            Request::CreateTarget,
            Request::ConfirmTarget,
            Request::Finish(Outcome::CreationFailure),
        ]
    );
    assert_eq!(d.target, None);
}

#[test]
fn no_create_leaves_an_existing_target_alone() {
    let mut d = disk();
    let made = drive(&options(&["-c", "f"]), &mut d);
    assert_eq!(
        made,
        vec![Request::CreateProbe, Request::FindTarget, Request::Finish(Outcome::Success)]
    );
    assert_eq!(d.target, Some(times(100, 200)));
    assert_eq!(ending(&made).exit_code(), 0);
}

#[test]
fn no_create_wins_over_every_other_flag() {
    let mut d = disk();
    let made = drive(&options(&["-camr", "missing", "f"]), &mut d);
    assert_eq!(
        made,
        vec![Request::CreateProbe, Request::FindTarget, Request::Finish(Outcome::Success)]
    );
    assert_eq!(d.target, Some(times(100, 200)));
}

#[test]
fn access_alone_keeps_the_modification_time() {
    let mut d = disk();
    let made = drive(&options(&["-a", "f"]), &mut d);
    let written = Times {
        accessed: FileTime::from_unix_time(900, 5),
        modified: FileTime::from_unix_time(200, 7),
    };
    assert_eq!(
        made,
        vec![
            Request::CreateProbe,
            Request::FindTarget,
            Request::ReadTarget,
            Request::ReadProbe,
            Request::SetTimes(written),
            Request::Finish(Outcome::Success),
        ]
    );
    assert_eq!(d.target, Some(written));
}

#[test]
fn modify_alone_keeps_the_access_time() {
    let mut d = disk();
    let made = drive(&options(&["-m", "f"]), &mut d);
    let written = Times {
        accessed: FileTime::from_unix_time(100, 5),
        modified: FileTime::from_unix_time(901, 7),
    };
    assert_eq!(made[4], Request::SetTimes(written));
    assert_eq!(d.target, Some(written));
}

#[test]
fn both_flags_take_both_times_from_the_probe() {
    let mut d = disk();
    let made = drive(&options(&["-am", "f"]), &mut d);
    assert_eq!(made[4], Request::SetTimes(times(900, 901)));
    assert_eq!(d.target, Some(times(900, 901)));
}

#[test]
fn reference_times_are_copied() {
    let mut d = Disk { reference: Some(times(31, 47)), ..disk() };
    let made = drive(&options(&["-a", "-m", "-r", "y", "x"]), &mut d);
    assert_eq!(
        made,
        vec![
            Request::CreateProbe,
            Request::FindTarget,
            Request::ReadTarget,
            Request::ReadProbe,
            Request::FindReference,
            Request::ReadReference,
            Request::SetTimes(times(31, 47)),
            Request::Finish(Outcome::Success),
        ]
    );
    assert_eq!(d.target, Some(times(31, 47)));
}

#[test]
fn one_flag_copies_one_time_of_the_reference() {
    let mut d = Disk { reference: Some(times(31, 47)), ..disk() };
    let made = drive(&options(&["-a", "-r", "y", "x"]), &mut d);
    assert_eq!(made[6], Request::SetTimes(times(31, 200)));
    let mut d = Disk { reference: Some(times(31, 47)), ..disk() };
    let made = drive(&options(&["-m", "-r", "y", "x"]), &mut d);
    assert_eq!(made[6], Request::SetTimes(times(100, 47)));
}

#[test]
fn a_missing_reference_is_refused() {
    let mut d = disk();
    let made = drive(&options(&["-am", "-r", "z", "x"]), &mut d);
    assert_eq!(
        made,
        vec![
            Request::CreateProbe,
            Request::FindTarget,
            Request::ReadTarget,
            Request::ReadProbe,
            Request::FindReference,
            Request::Finish(Outcome::Usage(UsageError::ReferenceUnreadable)),
        ]
    );
    assert_ne!(ending(&made).exit_code(), 0);
    assert_eq!(d.target, Some(times(100, 200)));
}

#[test]
fn a_missing_reference_is_refused_without_time_flags_too() {
    let mut d = disk();
    let made = drive(&options(&["-r", "z", "x"]), &mut d);
    assert_eq!(ending(&made), Outcome::Usage(UsageError::ReferenceUnreadable));
    assert_eq!(d.target, Some(times(100, 200)));
}

#[test]
fn a_reference_without_time_flags_sets_nothing() {
    let mut d = Disk { reference: Some(times(31, 47)), ..disk() };
    let made = drive(&options(&["-r", "y", "x"]), &mut d);
    assert!(made.iter().all(|r| !matches!(r, Request::SetTimes(_))));
    assert_eq!(ending(&made), Outcome::Success);
    assert_eq!(d.target, Some(times(100, 200)));
}

#[test]
fn no_flags_set_no_times() {
    let mut d = disk();
    let made = drive(&options(&["f"]), &mut d);
    assert_eq!(
        made,
        vec![
            Request::CreateProbe,
            Request::FindTarget,
            Request::ReadTarget,
            Request::ReadProbe,
            Request::Finish(Outcome::Success),
        ]
    );
    assert_eq!(d.target, Some(times(100, 200)));
}

#[test]
fn no_flags_still_create_a_missing_target() {
    let mut d = Disk { target: None, ..disk() };
    let made = drive(&options(&["f"]), &mut d);
    assert!(made.contains(&Request::CreateTarget));
    assert!(made.iter().all(|r| !matches!(r, Request::SetTimes(_))));
    assert!(d.target.is_some());
}

#[test]
fn unreadable_times_of_the_target_end_the_run_quietly() {
    let session = Session::new(&options(&["-am", "f"]))
        .step(Reply::Done)
        .step(Reply::Exists(true));
    assert_eq!(session.request(), Request::ReadTarget);
    let over = session.step(Reply::Unreadable);
    assert_eq!(over.request(), Request::Finish(Outcome::Success));
}

#[test]
fn unreadable_times_of_the_probe_end_the_run_quietly() {
    let session = Session::new(&options(&["-am", "f"]))
        .step(Reply::Done)
        .step(Reply::Exists(true))
        .step(Reply::Times(times(100, 200)));
    assert_eq!(session.request(), Request::ReadProbe);
    let over = session.step(Reply::Unreadable);
    assert_eq!(over.request(), Request::Finish(Outcome::Success));
}

#[test]
fn unreadable_times_of_the_reference_end_the_run_quietly() {
    let session = Session::new(&options(&["-am", "-r", "y", "x"]))
        .step(Reply::Done)
        .step(Reply::Exists(true))
        .step(Reply::Times(times(100, 200)))
        .step(Reply::Times(times(900, 901)))
        .step(Reply::Exists(true));
    assert_eq!(session.request(), Request::ReadReference);
    let over = session.step(Reply::Unreadable);
    assert_eq!(over.request(), Request::Finish(Outcome::Success));
}

#[test]
fn unreadable_answers_nothing_but_a_reading() {
    let session = Session::new(&options(&["-am", "f"]));
    assert_eq!(session.step(Reply::Unreadable), session);
    let looking = session.step(Reply::Done);
    assert_eq!(looking.step(Reply::Unreadable), looking);
}

#[test]
fn the_longest_run_makes_ten_requests() {
    let mut d = Disk { target: None, reference: Some(times(31, 47)), ..disk() };
    let made = drive(&options(&["-am", "-r", "y", "x"]), &mut d);
    assert_eq!(made.len(), 10);
    assert_eq!(made[8], Request::SetTimes(times(31, 47)));
}

#[test]
fn a_session_begins_with_the_probe() {
    let session = Session::new(&options(&["-am", "-r", "y", "x"]));
    assert_eq!(
        session,
        Session { access: true, no_create: false, modify: true, reference: true, stage: Stage::Probe }
    );
    assert_eq!(session.request(), Request::CreateProbe);
}

#[test]
fn an_answer_of_the_wrong_kind_changes_nothing() {
    let session = Session::new(&options(&["-a", "f"]));
    assert_eq!(session.step(Reply::Exists(true)), session);
    assert_eq!(session.step(Reply::Times(times(1, 2))), session);
    let looking = session.step(Reply::Done);
    assert_eq!(looking.request(), Request::FindTarget);
    assert_eq!(looking.step(Reply::Done), looking);
    let reading = looking.step(Reply::Exists(true));
    assert_eq!(reading.request(), Request::ReadTarget);
    assert_eq!(reading.step(Reply::Exists(false)), reading);
}

#[test]
fn a_run_that_is_over_stays_over() {
    let session = Session::new(&options(&["-c", "f"])).step(Reply::Done).step(Reply::Exists(true));
    assert_eq!(session.request(), Request::Finish(Outcome::Success));
    assert_eq!(session.step(Reply::Done), session);
    assert_eq!(session.step(Reply::Exists(false)), session);
    assert_eq!(session.step(Reply::Times(times(1, 2))), session);
}

#[test]
fn only_success_exits_with_zero() {
    assert_eq!(Outcome::Success.exit_code(), 0);
    assert_eq!(Outcome::CreationFailure.exit_code(), 1);
    assert_eq!(Outcome::Usage(UsageError::ReferenceUnreadable).exit_code(), 1);
    assert_eq!(Outcome::Usage(UsageError::MissingFilename).exit_code(), 1);
}

#[test]
fn the_times_to_write_follow_the_flags() {
    let current = times(100, 200);
    let fresh = times(900, 901);
    assert_eq!(choose_times(false, false, current, fresh), None);
    assert_eq!(choose_times(true, false, current, fresh), Some(times(900, 200)));
    assert_eq!(choose_times(false, true, current, fresh), Some(times(100, 901)));
    assert_eq!(choose_times(true, true, current, fresh), Some(fresh));
}
