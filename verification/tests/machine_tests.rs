use jre_bootstrap::machine::{
    Command, Directive, Machine, MachineState, Observation, Outcome, Verdict,
    DEFAULT_RETRY_BUDGET,
};
use jre_bootstrap::progress::Status;
use jre_bootstrap::stage::{get_stage, Stage};

fn obs(archive: bool, dir: bool, launcher: bool) -> Observation {
    Observation {
        archive_present: archive,
        runtime_dir_present: dir,
        launcher_present: launcher,
    }
}

#[test]
fn resolver_truth_table() {
    for &pkg in &[false, true] {
        assert_eq!(get_stage(false, false, pkg), Stage::AcquireRuntime);
        assert_eq!(get_stage(false, true, pkg), Stage::AcquireOrLaunchApplication);
        assert_eq!(get_stage(true, false, pkg), Stage::VerifyRuntimeArchive);
        assert_eq!(get_stage(true, true, pkg), Stage::VerifyExtractedRuntime);
    }
}

#[test]
fn observe_hands_out_stage_commands() {
    let mut m = Machine::new(DEFAULT_RETRY_BUDGET);
    assert_eq!(m.observe(obs(false, false, false)), Directive::Perform(Command::DownloadJre));

    let mut m = Machine::new(DEFAULT_RETRY_BUDGET);
    assert_eq!(m.observe(obs(true, false, false)), Directive::Perform(Command::CheckJreArchive));

    let mut m = Machine::new(DEFAULT_RETRY_BUDGET);
    assert_eq!(m.observe(obs(true, true, false)), Directive::Perform(Command::CheckJreFolder));

    let mut m = Machine::new(DEFAULT_RETRY_BUDGET);
    assert_eq!(m.observe(obs(false, true, false)), Directive::Perform(Command::DownloadLauncher));

    let mut m = Machine::new(DEFAULT_RETRY_BUDGET);
    assert_eq!(m.observe(obs(false, true, true)), Directive::Perform(Command::VerifyLauncher));
}

#[test]
fn retry_budget_terminates_failing_fetch() {
    // A remote fetch that always fails must end the run fatally within the
    // budget instead of looping forever.
    let budget: u64 = 3;
    let mut m = Machine::new(budget);
    let mut attempts: u64 = 0;
    let mut directive = Directive::Observe;
    let mut steps = 0;
    loop {
        steps += 1;
        assert!(steps < 1000, "the loop must terminate within the budget");
        directive = match directive {
            Directive::Observe => m.observe(obs(false, false, false)),
            Directive::Perform(cmd) => {
                assert_eq!(cmd, Command::DownloadJre);
                attempts += 1;
                m.report(Outcome::Failure)
            }
            Directive::Stop(v) => {
                assert_eq!(v, Verdict::Aborted);
                break;
            }
        };
    }
    assert_eq!(attempts, budget + 1);
    assert_eq!(m.state, MachineState::Finished(Verdict::Aborted));
}

#[test]
fn digest_mismatch_forces_redownload() {
    // A present archive that fails its digest check is deleted, and the
    // next pass fetches afresh instead of re-using the corrupt file.
    let mut archive_present = true;
    let mut m = Machine::new(DEFAULT_RETRY_BUDGET);

    let d1 = m.observe(obs(archive_present, false, false));
    assert_eq!(d1, Directive::Perform(Command::CheckJreArchive));

    // the digest check failed
    let d2 = m.report(Outcome::Failure);
    assert_eq!(d2, Directive::Perform(Command::RemoveArchive));

    archive_present = false;
    let d3 = m.report(Outcome::Success);
    assert_eq!(d3, Directive::Observe);

    // the archive no longer exists, so a fresh fetch is attempted
    let d4 = m.observe(obs(archive_present, false, false));
    assert_eq!(d4, Directive::Perform(Command::DownloadJre));
}

#[test]
fn corrupt_tree_is_deleted_and_rebuilt() {
    let mut m = Machine::new(DEFAULT_RETRY_BUDGET);
    assert_eq!(m.observe(obs(true, true, false)), Directive::Perform(Command::CheckJreFolder));
    assert_eq!(m.report(Outcome::Failure), Directive::Perform(Command::RemoveFolder));
    assert_eq!(m.report(Outcome::Success), Directive::Observe);
    // the archive is still present, so the next pass re-verifies it
    assert_eq!(m.observe(obs(true, false, false)), Directive::Perform(Command::CheckJreArchive));
}

#[test]
fn failed_lookup_leaves_the_archive_alone() {
    // A digest lookup that could not be answered is not a mismatch: the
    // archive is not deleted, a retry is spent, and the same check is
    // simply tried again on the next pass.
    let mut m = Machine::new(2);
    assert_eq!(m.observe(obs(true, false, false)), Directive::Perform(Command::CheckJreArchive));
    assert_eq!(m.report(Outcome::Unavailable), Directive::Observe);
    assert_eq!(m.retries_left, 1);
    // the archive is still present, so the same stage resolves again
    assert_eq!(m.observe(obs(true, false, false)), Directive::Perform(Command::CheckJreArchive));
    assert_eq!(m.report(Outcome::Unavailable), Directive::Observe);
    assert_eq!(m.retries_left, 0);
    assert_eq!(m.observe(obs(true, false, false)), Directive::Perform(Command::CheckJreArchive));
    // out of budget: the run ends fatally instead of looping forever
    assert_eq!(m.report(Outcome::Unavailable), Directive::Stop(Verdict::Aborted));
}

#[test]
fn unreadable_tree_check_deletes_nothing() {
    let mut m = Machine::new(DEFAULT_RETRY_BUDGET);
    assert_eq!(m.observe(obs(true, true, false)), Directive::Perform(Command::CheckJreFolder));
    // the archive could not be read back: no deletion, just a new pass
    assert_eq!(m.report(Outcome::Unavailable), Directive::Observe);
    assert_eq!(m.observe(obs(true, true, false)), Directive::Perform(Command::CheckJreFolder));
}

#[test]
fn verified_tree_commits_by_removing_archive() {
    let mut m = Machine::new(DEFAULT_RETRY_BUDGET);
    assert_eq!(m.observe(obs(true, true, false)), Directive::Perform(Command::CheckJreFolder));
    // success of the tree check is the commit: the archive goes away
    assert_eq!(m.report(Outcome::Success), Directive::Perform(Command::RemoveArchive));
    assert_eq!(m.report(Outcome::Success), Directive::Observe);
    assert_eq!(m.observe(obs(false, true, false)), Directive::Perform(Command::DownloadLauncher));
}

#[test]
fn end_to_end_happy_path_event_sequence() {
    // Empty install directory through to the launch, observing the exact
    // progress narration in order.
    let mut archive = false;
    let mut dir = false;
    let mut pkg = false;
    let mut statuses: Vec<Status> = Vec::new();
    let mut m = Machine::new(DEFAULT_RETRY_BUDGET);
    let mut directive = Directive::Observe;
    let mut steps = 0;
    let verdict = loop {
        steps += 1;
        assert!(steps < 100, "the happy path must terminate");
        directive = match directive {
            Directive::Observe => m.observe(obs(archive, dir, pkg)),
            Directive::Perform(cmd) => {
                if let Some(s) = cmd.status() {
                    statuses.push(s);
                }
                let ok = match cmd {
                    Command::DownloadJre => {
                        archive = true;
                        true
                    }
                    Command::CheckJreArchive => true,
                    Command::ExtractJre => {
                        dir = true;
                        true
                    }
                    Command::CheckJreFolder => true,
                    Command::DownloadLauncher => {
                        pkg = true;
                        true
                    }
                    Command::VerifyLauncher => true,
                    Command::RunLauncher => true,
                    Command::RemoveArchive => {
                        archive = false;
                        true
                    }
                    Command::RemoveFolder => {
                        dir = false;
                        true
                    }
                    Command::RemoveLauncher => {
                        pkg = false;
                        true
                    }
                };
                m.report(if ok {
                    Outcome::Success
                } else {
                    Outcome::Failure
                })
            }
            Directive::Stop(v) => break v,
        };
    };
    assert_eq!(verdict, Verdict::Launched);
    assert_eq!(
        statuses,
        vec![
            Status::DownloadJre,
            Status::CheckJreArchive,
            Status::ExtractJre,
            Status::CheckJreFolder,
            Status::DownloadLauncher,
            Status::VerifyLauncher,
            Status::RunLauncher,
        ]
    );
    let percents: Vec<u8> = statuses.iter().map(|s| s.percent()).collect();
    assert_eq!(percents, vec![0, 15, 30, 45, 60, 75, 100]);
}

#[test]
fn launch_failure_is_fatal() {
    let mut m = Machine::new(DEFAULT_RETRY_BUDGET);
    assert_eq!(m.observe(obs(false, true, true)), Directive::Perform(Command::VerifyLauncher));
    assert_eq!(m.report(Outcome::Success), Directive::Perform(Command::RunLauncher));
    assert_eq!(m.report(Outcome::Failure), Directive::Stop(Verdict::Aborted));
}

#[test]
fn package_download_failure_is_fatal() {
    let mut m = Machine::new(DEFAULT_RETRY_BUDGET);
    assert_eq!(m.observe(obs(false, true, false)), Directive::Perform(Command::DownloadLauncher));
    assert_eq!(m.report(Outcome::Failure), Directive::Stop(Verdict::Aborted));
}

#[test]
fn invalid_package_is_deleted_then_redownloaded() {
    let mut m = Machine::new(DEFAULT_RETRY_BUDGET);
    assert_eq!(m.observe(obs(false, true, true)), Directive::Perform(Command::VerifyLauncher));
    assert_eq!(m.report(Outcome::Failure), Directive::Perform(Command::RemoveLauncher));
    assert_eq!(m.report(Outcome::Success), Directive::Observe);
    assert_eq!(m.observe(obs(false, true, false)), Directive::Perform(Command::DownloadLauncher));
}

#[test]
fn progress_labels() {
    assert_eq!(Status::DownloadJre.label(), "Download JRE");
    assert_eq!(Status::CheckJreArchive.label(), "Verify JRE Archive");
    assert_eq!(Status::ExtractJre.label(), "Extract JRE Archive");
    assert_eq!(Status::CheckJreFolder.label(), "Verify JRE Folder");
    assert_eq!(Status::DownloadLauncher.label(), "Download Launcher");
    assert_eq!(Status::VerifyLauncher.label(), "Verify Launcher");
    assert_eq!(Status::RunLauncher.label(), "Run Launcher");
}

#[test]
fn removals_narrate_nothing() {
    assert_eq!(Command::RemoveArchive.status(), None);
    assert_eq!(Command::RemoveFolder.status(), None);
    assert_eq!(Command::RemoveLauncher.status(), None);
}
