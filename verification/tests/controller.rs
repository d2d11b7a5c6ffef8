use vbranch_core::branch::avatar_urls;
use vbranch_core::branch::proxy_commits;
use vbranch_core::branch::Author;
use vbranch_core::branch::BaseBranch;
use vbranch_core::branch::VirtualBranchCommit;
use vbranch_core::controller::next_step;
use vbranch_core::controller::pending_action;
use vbranch_core::controller::work_at;
use vbranch_core::controller::work_count;
use vbranch_core::controller::Action;
use vbranch_core::controller::Call;
use vbranch_core::controller::Context;
use vbranch_core::controller::Controller;
use vbranch_core::controller::ControllerError;
use vbranch_core::controller::Event;
use vbranch_core::controller::Operation;
use vbranch_core::controller::Stage;
use vbranch_core::controller::Verdict;
use vbranch_core::controller::Work;

fn controller() -> Controller {
    Controller::new("/data".to_string())
}

/// Runs a call to its end, answering each step with the next report, and
/// returns the steps that were asked for. Once the reports run out, every
/// step is reported done.
fn drive(mut call: Call, reports: &[Event]) -> Vec<Action> {
    let mut reports = reports.iter();
    let mut asked = Vec::new();
    loop {
        let action = call.pending();
        asked.push(action);
        if let Action::Finish(_) = action {
            assert!(!call.holds_permit());
            return asked;
        }
        assert!(asked.len() < 32, "the call does not end");
        call = call.advance(*reports.next().unwrap_or(&Event::Done));
    }
}

const ALL: [Operation; 12] = [
    Operation::CreateCommit,
    Operation::ListVirtualBranches,
    Operation::CreateVirtualBranch,
    Operation::CreateVirtualBranchFromBranch,
    Operation::GetBaseBranchData,
    Operation::SetBaseBranch,
    Operation::UpdateBaseBranch,
    Operation::UpdateVirtualBranch,
    Operation::DeleteVirtualBranch,
    Operation::ApplyVirtualBranch,
    Operation::UnapplyVirtualBranch,
    Operation::PushVirtualBranch,
];

const ALL_EVENTS: [Event; 6] = [
    Event::Done,
    Event::Failed,
    Event::Missing,
    Event::Resolving(true),
    Event::Resolving(false),
    Event::PushRefused,
];

#[test]
fn a_plain_operation_runs_under_the_permit() {
    let locked = |work: Work| {
        vec![
            Action::ResolveProject,
            Action::AcquirePermit,
            Action::OpenProjectRepository,
            Action::OpenBranchStore,
            Action::Run(work),
            Action::ReleasePermit,
            Action::Finish(Verdict::Done),
        ]
    };
    let controller = controller();
    assert_eq!(drive(controller.create_commit("p"), &[]), locked(Work::Commit));
    assert_eq!(
        drive(controller.update_base_branch("p"), &[]),
        locked(Work::UpdateBaseBranch)
    );
    assert_eq!(
        drive(controller.update_virtual_branch("p"), &[]),
        locked(Work::UpdateBranch)
    );
    assert_eq!(
        drive(controller.delete_virtual_branch("p"), &[]),
        locked(Work::DeleteBranch)
    );
    assert_eq!(
        drive(controller.apply_virtual_branch("p"), &[]),
        locked(Work::ApplyBranch)
    );
    assert_eq!(
        drive(controller.unapply_virtual_branch("p"), &[]),
        locked(Work::UnapplyBranch)
    );
}

#[test]
fn a_call_knows_its_project() {
    let call = controller().create_commit("project-1");
    assert_eq!(call.project_id(), "project-1");
    let call = call.advance(Event::Done).advance(Event::Done);
    assert_eq!(call.project_id(), "project-1");
    assert_eq!(controller().local_data_dir(), "/data");
}

#[test]
fn listings_have_their_avatars_rewritten_after_the_permit_is_back() {
    assert_eq!(
        drive(controller().list_virtual_branches("p"), &[]),
        vec![
            Action::ResolveProject,
            Action::AcquirePermit,
            Action::OpenProjectRepository,
            Action::OpenBranchStore,
            Action::Run(Work::ListBranches),
            Action::ReleasePermit,
            Action::RewriteAvatars,
            Action::Finish(Verdict::Done),
        ]
    );
    assert_eq!(
        drive(controller().set_base_branch("p"), &[]),
        vec![
            Action::ResolveProject,
            Action::AcquirePermit,
            Action::OpenProjectRepository,
            Action::OpenBranchStore,
            Action::Run(Work::SetBaseBranch),
            Action::ReleasePermit,
            Action::RewriteAvatars,
            Action::Finish(Verdict::Done),
        ]
    );
}

#[test]
fn a_failed_proxy_does_not_fail_the_call() {
    for report in ALL_EVENTS {
        let reports = [
            Event::Done,
            Event::Done,
            Event::Done,
            Event::Done,
            Event::Done,
            Event::Done,
            report,
        ];
        let asked = drive(controller().list_virtual_branches("p"), &reports);
        assert_eq!(asked.last(), Some(&Action::Finish(Verdict::Done)));
    }
}

#[test]
fn the_base_branch_is_read_without_the_permit() {
    let asked = drive(controller().get_base_branch_data("p"), &[]);
    assert_eq!(
        asked,
        vec![
            Action::ResolveProject,
            Action::OpenProjectRepository,
            Action::OpenBranchStore,
            Action::Run(Work::GetBaseBranch),
            Action::RewriteAvatars,
            Action::Finish(Verdict::Done),
        ]
    );
    // Whatever is reported, the permit is never asked for.
    for first in ALL_EVENTS {
        for second in ALL_EVENTS {
            for third in ALL_EVENTS {
                let reports = [first, second, third, Event::Failed];
                let asked = drive(controller().get_base_branch_data("p"), &reports);
                assert!(!asked.contains(&Action::AcquirePermit));
                assert!(!asked.contains(&Action::ReleasePermit));
            }
        }
    }
}

#[test]
fn creating_a_branch_asks_about_conflicts_first() {
    assert_eq!(
        drive(
            controller().create_virtual_branch("p"),
            &[
                Event::Done,
                Event::Done,
                Event::Done,
                Event::Done,
                Event::Resolving(false)
            ]
        ),
        vec![
            Action::ResolveProject,
            Action::AcquirePermit,
            Action::OpenProjectRepository,
            Action::OpenBranchStore,
            Action::AskConflicts,
            Action::Run(Work::CreateBranch),
            Action::ReleasePermit,
            Action::Finish(Verdict::Done),
        ]
    );
}

#[test]
fn creating_a_branch_while_conflicts_are_resolved_changes_nothing() {
    let mut call = controller().create_virtual_branch("p");
    for _ in 0..4 {
        call = call.advance(Event::Done);
    }
    assert_eq!(call.pending(), Action::AskConflicts);
    assert!(call.holds_permit());
    call = call.advance(Event::Resolving(true));
    assert_eq!(call.pending(), Action::ReleasePermit);
    assert_eq!(call.state().begun, 0);
    call = call.advance(Event::Done);
    assert_eq!(
        call.pending(),
        Action::Finish(Verdict::Failed(ControllerError::Conflicting))
    );
    assert!(!call.holds_permit());
    assert_eq!(call.state().begun, 0);

    let asked = drive(
        controller().create_virtual_branch("p"),
        &[
            Event::Done,
            Event::Done,
            Event::Done,
            Event::Done,
            Event::Resolving(true),
        ],
    );
    assert!(!asked.iter().any(|action| matches!(action, Action::Run(_))));
}

#[test]
fn a_branch_from_a_branch_is_created_and_applied_under_one_permit() {
    assert_eq!(
        drive(controller().create_virtual_branch_from_branch("p"), &[]),
        vec![
            Action::ResolveProject,
            Action::AcquirePermit,
            Action::OpenProjectRepository,
            Action::OpenBranchStore,
            Action::Run(Work::CreateBranchFromBranch),
            Action::Run(Work::ApplyBranch),
            Action::ReleasePermit,
            Action::Finish(Verdict::Done),
        ]
    );
    // Where the creation fails, nothing is applied.
    let asked = drive(
        controller().create_virtual_branch_from_branch("p"),
        &[
            Event::Done,
            Event::Done,
            Event::Done,
            Event::Done,
            Event::Failed,
        ],
    );
    assert!(!asked.contains(&Action::Run(Work::ApplyBranch)));
    assert_eq!(
        asked.last(),
        Some(&Action::Finish(Verdict::Failed(ControllerError::Other(
            Context::Work
        ))))
    );
}

#[test]
fn the_key_is_fetched_before_the_permit_is_asked_for() {
    assert_eq!(
        drive(controller().push_virtual_branch("p"), &[]),
        vec![
            Action::ResolveProject,
            Action::FetchKey,
            Action::AcquirePermit,
            Action::OpenProjectRepository,
            Action::OpenBranchStore,
            Action::Run(Work::Push),
            Action::ReleasePermit,
            Action::Finish(Verdict::Done),
        ]
    );
    assert_eq!(
        drive(
            controller().push_virtual_branch("p"),
            &[Event::Done, Event::Failed]
        ),
        vec![
            Action::ResolveProject,
            Action::FetchKey,
            Action::Finish(Verdict::Failed(ControllerError::Other(
                Context::PrivateKey
            ))),
        ]
    );
}

#[test]
fn a_refused_push_is_a_push_error() {
    let reports = [
        Event::Done,
        Event::Done,
        Event::Done,
        Event::Done,
        Event::Done,
        Event::PushRefused,
    ];
    let asked = drive(controller().push_virtual_branch("p"), &reports);
    assert_eq!(
        &asked[asked.len() - 2..],
        &[
            Action::ReleasePermit,
            Action::Finish(Verdict::Failed(ControllerError::PushError))
        ]
    );
    let reports = [
        Event::Done,
        Event::Done,
        Event::Done,
        Event::Done,
        Event::Done,
        Event::Failed,
    ];
    let asked = drive(controller().push_virtual_branch("p"), &reports);
    assert_eq!(
        asked.last(),
        Some(&Action::Finish(Verdict::Failed(ControllerError::Other(
            Context::Work
        ))))
    );
    // Only a push can be refused by the remote.
    let asked = drive(
        controller().create_commit("p"),
        &[
            Event::Done,
            Event::Done,
            Event::Done,
            Event::Done,
            Event::PushRefused,
        ],
    );
    assert_eq!(
        asked.last(),
        Some(&Action::Finish(Verdict::Failed(ControllerError::Other(
            Context::Unexpected
        ))))
    );
}

#[test]
fn a_project_that_is_not_there_ends_the_call_at_once() {
    for operation in ALL {
        assert_eq!(
            drive(Call::begin(operation, "p"), &[Event::Missing]),
            vec![
                Action::ResolveProject,
                Action::Finish(Verdict::Failed(ControllerError::Other(
                    Context::ProjectNotFound
                ))),
            ]
        );
        assert_eq!(
            drive(Call::begin(operation, "p"), &[Event::Failed]),
            vec![
                Action::ResolveProject,
                Action::Finish(Verdict::Failed(ControllerError::Other(
                    Context::GetProject
                ))),
            ]
        );
    }
}

#[test]
fn a_permit_that_cannot_be_had_is_a_lock_error() {
    assert_eq!(
        drive(controller().create_commit("p"), &[Event::Done, Event::Failed]),
        vec![
            Action::ResolveProject,
            Action::AcquirePermit,
            Action::Finish(Verdict::Failed(ControllerError::LockError)),
        ]
    );
}

#[test]
fn stores_that_do_not_open_fail_the_call_after_the_permit_is_back() {
    assert_eq!(
        drive(
            controller().create_commit("p"),
            &[Event::Done, Event::Done, Event::Failed]
        ),
        vec![
            Action::ResolveProject,
            Action::AcquirePermit,
            Action::OpenProjectRepository,
            Action::ReleasePermit,
            Action::Finish(Verdict::Failed(ControllerError::Other(
                Context::OpenProjectRepository
            ))),
        ]
    );
    assert_eq!(
        drive(
            controller().create_commit("p"),
            &[Event::Done, Event::Done, Event::Done, Event::Failed]
        ),
        vec![
            Action::ResolveProject,
            Action::AcquirePermit,
            Action::OpenProjectRepository,
            Action::OpenBranchStore,
            Action::ReleasePermit,
            Action::Finish(Verdict::Failed(ControllerError::Other(
                Context::OpenRepository
            ))),
        ]
    );
    // Without a permit there is nothing to give back.
    assert_eq!(
        drive(
            controller().get_base_branch_data("p"),
            &[Event::Done, Event::Failed]
        ),
        vec![
            Action::ResolveProject,
            Action::OpenProjectRepository,
            Action::Finish(Verdict::Failed(ControllerError::Other(
                Context::OpenProjectRepository
            ))),
        ]
    );
}

#[test]
fn a_failed_call_has_no_avatars_rewritten() {
    let asked = drive(
        controller().list_virtual_branches("p"),
        &[
            Event::Done,
            Event::Done,
            Event::Done,
            Event::Done,
            Event::Failed,
        ],
    );
    assert!(!asked.contains(&Action::RewriteAvatars));
}

#[test]
fn every_call_ends_without_the_permit_whatever_is_reported() {
    for operation in ALL {
        for first in ALL_EVENTS {
            for second in ALL_EVENTS {
                for third in ALL_EVENTS {
                    for fourth in ALL_EVENTS {
                        for fifth in ALL_EVENTS {
                            let reports = [first, second, third, fourth, fifth];
                            let asked = drive(Call::begin(operation, "p"), &reports);
                            let acquired = asked
                                .iter()
                                .filter(|action| **action == Action::AcquirePermit)
                                .count();
                            let released = asked
                                .iter()
                                .filter(|action| **action == Action::ReleasePermit)
                                .count();
                            assert!(acquired <= 1);
                            assert!(released <= acquired);
                            assert!(matches!(asked.last(), Some(Action::Finish(_))));
                        }
                    }
                }
            }
        }
    }
}

#[test]
fn a_granted_permit_is_always_given_back() {
    for operation in ALL {
        if operation == Operation::GetBaseBranchData {
            continue;
        }
        for after in ALL_EVENTS {
            for then in ALL_EVENTS {
                let mut reports = vec![Event::Done];
                if operation == Operation::PushVirtualBranch {
                    reports.push(Event::Done);
                }
                reports.push(Event::Done);
                reports.push(after);
                reports.push(then);
                let asked = drive(Call::begin(operation, "p"), &reports);
                let acquire = asked
                    .iter()
                    .position(|action| *action == Action::AcquirePermit)
                    .unwrap();
                let release = asked
                    .iter()
                    .position(|action| *action == Action::ReleasePermit)
                    .unwrap();
                assert!(acquire < release);
                // All the work lies between the two.
                for (at, action) in asked.iter().enumerate() {
                    if matches!(action, Action::Run(_) | Action::AskConflicts) {
                        assert!(acquire < at && at < release);
                    }
                }
            }
        }
    }
}

#[test]
fn a_report_that_answers_nothing_fails_the_step() {
    assert_eq!(
        drive(controller().create_commit("p"), &[Event::Resolving(true)]),
        vec![
            Action::ResolveProject,
            Action::Finish(Verdict::Failed(ControllerError::Other(
                Context::Unexpected
            ))),
        ]
    );
    let asked = drive(
        controller().create_virtual_branch("p"),
        &[
            Event::Done,
            Event::Done,
            Event::Done,
            Event::Done,
            Event::Done,
        ],
    );
    assert_eq!(
        &asked[asked.len() - 3..],
        &[
            Action::AskConflicts,
            Action::ReleasePermit,
            Action::Finish(Verdict::Failed(ControllerError::Other(
                Context::Unexpected
            )))
        ]
    );
}

#[test]
fn a_finished_call_stays_finished() {
    let mut call = controller().create_commit("p");
    for _ in 0..6 {
        call = call.advance(Event::Done);
    }
    assert_eq!(call.pending(), Action::Finish(Verdict::Done));
    for report in ALL_EVENTS {
        call = call.advance(report);
        assert_eq!(call.pending(), Action::Finish(Verdict::Done));
    }
}

#[test]
fn the_steps_of_a_call_can_be_taken_on_plain_values() {
    let mut progress = controller().create_commit("p").state();
    assert_eq!(progress.stage, Stage::ResolvingProject);
    assert_eq!(pending_action(progress), Action::ResolveProject);
    progress = next_step(progress, Event::Done);
    assert_eq!(progress.stage, Stage::Acquiring);
    assert!(!progress.holding);
    progress = next_step(progress, Event::Done);
    assert!(progress.holding);
    progress = next_step(next_step(progress, Event::Done), Event::Done);
    assert_eq!(progress.stage, Stage::Running(0));
    assert_eq!(progress.begun, 1);
    assert_eq!(pending_action(progress), Action::Run(Work::Commit));
}

#[test]
fn every_operation_is_made_of_one_or_two_pieces_of_work() {
    for operation in ALL {
        let count = work_count(operation);
        assert!(count == 1 || count == 2);
        assert!(work_at(operation, 0).is_some());
        assert_eq!(work_at(operation, 1).is_some(), count == 2);
        assert_eq!(work_at(operation, count), None);
    }
    assert_eq!(work_count(Operation::CreateVirtualBranchFromBranch), 2);
    assert_eq!(
        work_at(Operation::CreateVirtualBranchFromBranch, 1),
        Some(Work::ApplyBranch)
    );
    assert_eq!(work_at(Operation::PushVirtualBranch, 0), Some(Work::Push));
}

fn commit(id: &str, url: &str) -> VirtualBranchCommit {
    VirtualBranchCommit {
        id: id.to_string(),
        description: format!("commit {}", id),
        created_at: 1700000000000,
        author: Author {
            name: "author".to_string(),
            email: "author@example.com".to_string(),
            gravatar_url: url.to_string(),
        },
    }
}

fn base_branch() -> BaseBranch {
    BaseBranch {
        branch_name: "origin/master".to_string(),
        remote_name: "origin".to_string(),
        remote_url: "https://example.com/repo.git".to_string(),
        base_sha: "abc".to_string(),
        current_sha: "def".to_string(),
        behind: 2,
        upstream_commits: vec![commit("u1", "https://avatar/u1"), commit("u2", "https://avatar/u2")],
        recent_commits: vec![
            commit("r1", "https://avatar/r1"),
            commit("r2", "https://avatar/r2"),
            commit("r3", "https://avatar/r3"),
        ],
    }
}

#[test]
fn one_avatar_is_handed_to_the_proxy_for_each_commit() {
    let branch = base_branch();
    assert_eq!(
        avatar_urls(&branch.recent_commits),
        vec!["https://avatar/r1", "https://avatar/r2", "https://avatar/r3"]
    );
    assert_eq!(
        avatar_urls(&branch.upstream_commits),
        vec!["https://avatar/u1", "https://avatar/u2"]
    );
    assert!(avatar_urls(&Vec::new()).is_empty());
}

#[test]
fn proxied_avatars_replace_the_old_ones_in_order() {
    let recent = vec![
        Some("asset://r1".to_string()),
        None,
        Some("asset://r3".to_string()),
    ];
    let upstream = vec![None, Some("asset://u2".to_string())];
    let out = controller().proxy_base_branch(base_branch(), &recent, &upstream);

    let mut expected = base_branch();
    expected.recent_commits[0].author.gravatar_url = "asset://r1".to_string();
    expected.recent_commits[2].author.gravatar_url = "asset://r3".to_string();
    expected.upstream_commits[1].author.gravatar_url = "asset://u2".to_string();
    assert_eq!(out, expected);
}

#[test]
fn a_proxy_that_fails_everywhere_changes_nothing() {
    let out = controller().proxy_base_branch(base_branch(), &vec![None; 3], &vec![None; 2]);
    assert_eq!(out, base_branch());
    let out = controller().proxy_base_branch(base_branch(), &Vec::new(), &Vec::new());
    assert_eq!(out, base_branch());
}

#[test]
fn answers_without_a_commit_are_passed_over() {
    let commits = vec![commit("a", "old")];
    let out = proxy_commits(
        &commits,
        &vec![Some("new".to_string()), Some("stray".to_string())],
    );
    assert_eq!(out, vec![commit("a", "new")]);
}
