//! The decisions of the virtual-branch controller. One call of an operation
//! is a sequence of steps that someone else carries out: looking the
//! project up, waiting for its permit, opening the two stores, doing the
//! work, giving the permit back. What is decided here is which step comes
//! next, and how the call ends.

use vstd::prelude::*;

verus! {

/// The operations of the controller.
#[derive(Debug, Clone, Copy, PartialEq, Eq, Structural)]
pub enum Operation {
    CreateCommit,
    ListVirtualBranches,
    CreateVirtualBranch,
    CreateVirtualBranchFromBranch,
    GetBaseBranchData,
    SetBaseBranch,
    UpdateBaseBranch,
    UpdateVirtualBranch,
    DeleteVirtualBranch,
    ApplyVirtualBranch,
    UnapplyVirtualBranch,
    PushVirtualBranch,
}

/// The pieces of work on branches that an operation is made of.
#[derive(Debug, Clone, Copy, PartialEq, Eq, Structural)]
pub enum Work {
    Commit,
    ListBranches,
    CreateBranch,
    CreateBranchFromBranch,
    ApplyBranch,
    UnapplyBranch,
    UpdateBranch,
    DeleteBranch,
    GetBaseBranch,
    SetBaseBranch,
    UpdateBaseBranch,
    Push,
}

/// The step of a failed call, as far as the error tells it.
#[derive(Debug, Clone, Copy, PartialEq, Eq, Structural)]
pub enum Context {
    /// The project storage failed.
    GetProject,
    /// The project storage has no such project.
    ProjectNotFound,
    /// The signing key could neither be had nor made.
    PrivateKey,
    /// The repository of the project could not be opened.
    OpenProjectRepository,
    /// The store of the branches could not be opened.
    OpenRepository,
    /// The work on the branches failed.
    Work,
    /// What was reported does not answer the step that was asked for.
    Unexpected,
}

/// How a call of the controller fails.
#[derive(Debug, Clone, Copy, PartialEq, Eq, Structural)]
pub enum ControllerError {
    /// The push failed at the repository of the project or on the way to
    /// the remote.
    PushError,
    /// The project has conflicts that are not resolved; nothing was changed.
    Conflicting,
    /// The permit of the project could not be had.
    LockError,
    /// Any other failure, with the step that failed.
    Other(Context),
}

/// How a call ends.
#[derive(Debug, Clone, Copy, PartialEq, Eq, Structural)]
pub enum Verdict {
    /// The operation was carried out.
    Done,
    /// The operation failed.
    Failed(ControllerError),
}

/// What the caller is asked to do next.
#[derive(Debug, Clone, Copy, PartialEq, Eq, Structural)]
pub enum Action {
    /// Look the project up in the project storage.
    ResolveProject,
    /// Get the signing key, or make one.
    FetchKey,
    /// Wait for the permit of the project.
    AcquirePermit,
    /// Open the repository of the project.
    OpenProjectRepository,
    /// Open the store of the branches.
    OpenBranchStore,
    /// Ask the repository of the project whether conflicts are being
    /// resolved.
    AskConflicts,
    /// Do a piece of work on the branches.
    Run(Work),
    /// Give the permit of the project back.
    ReleasePermit,
    /// Have the avatar of every author in the result rewritten.
    RewriteAvatars,
    /// The call is over, with this result.
    Finish(Verdict),
}

/// What the caller reports of the step it was asked to do.
#[derive(Debug, Clone, Copy, PartialEq, Eq, Structural)]
pub enum Event {
    /// The step was done.
    Done,
    /// The step failed.
    Failed,
    /// The project storage has no such project.
    Missing,
    /// Whether conflicts are being resolved.
    Resolving(bool),
    /// The push failed at the repository of the project or on the way to
    /// the remote.
    PushRefused,
}

/// Where a call stands: the step whose report is awaited.
#[derive(Debug, Clone, Copy, PartialEq, Eq, Structural)]
pub enum Stage {
    ResolvingProject,
    FetchingKey,
    Acquiring,
    OpeningProject,
    OpeningStore,
    CheckingConflicts,
    /// The piece of work with this number is under way.
    Running(usize),
    Releasing,
    Rewriting,
    Finished,
}

/// One call of an operation, as far as it has come.
#[derive(Debug, Clone, Copy, PartialEq, Eq, Structural)]
pub struct Progress {
    /// The operation that was called.
    pub operation: Operation,
    /// The step whose report is awaited.
    pub stage: Stage,
    /// Whether the call holds the permit of the project.
    pub holding: bool,
    /// The number of pieces of work that were begun.
    pub begun: usize,
    /// How the call ends, once that is decided.
    pub verdict: Verdict,
}

/// Whether the operation runs under the permit of the project. Reading the
/// base branch is the one that does not.
pub open spec fn takes_permit(operation: Operation) -> bool {
    operation != Operation::GetBaseBranchData
}

/// Whether the operation needs the signing key. The key is fetched before
/// the permit is asked for.
pub open spec fn needs_key(operation: Operation) -> bool {
    operation == Operation::PushVirtualBranch
}

/// Whether the operation is refused while conflicts are being resolved.
pub open spec fn guards_conflicts(operation: Operation) -> bool {
    operation == Operation::CreateVirtualBranch
}

/// Whether the avatars in the result of the operation are rewritten.
pub open spec fn rewrites_avatars(operation: Operation) -> bool {
    operation == Operation::ListVirtualBranches || operation == Operation::GetBaseBranchData
        || operation == Operation::SetBaseBranch
}

/// The pieces of work that the operation is made of, in order.
pub open spec fn work_of(operation: Operation) -> Seq<Work> {
    match operation {
        Operation::CreateCommit => seq![Work::Commit],
        Operation::ListVirtualBranches => seq![Work::ListBranches],
        Operation::CreateVirtualBranch => seq![Work::CreateBranch],
        Operation::CreateVirtualBranchFromBranch => seq![
            Work::CreateBranchFromBranch,
            Work::ApplyBranch,
        ],
        Operation::GetBaseBranchData => seq![Work::GetBaseBranch],
        Operation::SetBaseBranch => seq![Work::SetBaseBranch],
        Operation::UpdateBaseBranch => seq![Work::UpdateBaseBranch],
        Operation::UpdateVirtualBranch => seq![Work::UpdateBranch],
        Operation::DeleteVirtualBranch => seq![Work::DeleteBranch],
        Operation::ApplyVirtualBranch => seq![Work::ApplyBranch],
        Operation::UnapplyVirtualBranch => seq![Work::UnapplyBranch],
        Operation::PushVirtualBranch => seq![Work::Push],
    }
}

/// A call that has just begun: the project is looked up first.
pub open spec fn begun(operation: Operation) -> Progress {
    Progress {
        operation,
        stage: Stage::ResolvingProject,
        holding: false,
        begun: 0,
        verdict: Verdict::Done,
    }
}

/// What the caller is asked to do where the call stands.
pub open spec fn pending(call: Progress) -> Action {
    match call.stage {
        Stage::ResolvingProject => Action::ResolveProject,
        Stage::FetchingKey => Action::FetchKey,
        Stage::Acquiring => Action::AcquirePermit,
        Stage::OpeningProject => Action::OpenProjectRepository,
        Stage::OpeningStore => Action::OpenBranchStore,
        Stage::CheckingConflicts => Action::AskConflicts,
        Stage::Running(number) => Action::Run(work_of(call.operation)[number as int]),
        Stage::Releasing => Action::ReleasePermit,
        Stage::Rewriting => Action::RewriteAvatars,
        Stage::Finished => Action::Finish(call.verdict),
    }
}

/// The call fails: the permit, where it is held, is given back first.
pub open spec fn failing(call: Progress, error: ControllerError) -> Progress {
    Progress {
        stage: if call.holding {
            Stage::Releasing
        } else {
            Stage::Finished
        },
        verdict: Verdict::Failed(error),
        ..call
    }
}

/// The call is past its way in: the permit is asked for, where the
/// operation runs under it, and the stores are opened.
pub open spec fn entering(call: Progress) -> Progress {
    Progress {
        stage: if takes_permit(call.operation) {
            Stage::Acquiring
        } else {
            Stage::OpeningProject
        },
        ..call
    }
}

/// The piece of work with the given number begins.
pub open spec fn running(call: Progress, number: usize) -> Progress {
    Progress { stage: Stage::Running(number), begun: (number + 1) as usize, ..call }
}

/// The permit is back, or was never held: the avatars are rewritten where
/// the operation has them rewritten and has not failed, and the call ends.
pub open spec fn leaving(call: Progress) -> Progress {
    Progress {
        stage: if call.verdict is Done && rewrites_avatars(call.operation) {
            Stage::Rewriting
        } else {
            Stage::Finished
        },
        holding: false,
        ..call
    }
}

/// The work is done: the permit, where it is held, is given back.
pub open spec fn concluding(call: Progress) -> Progress {
    if call.holding {
        Progress { stage: Stage::Releasing, ..call }
    } else {
        leaving(call)
    }
}

/// Where the call stands after the report `event` on its pending step. A
/// report that does not answer the step fails the call. Giving the permit
/// back and rewriting the avatars cannot fail the call: whatever is
/// reported of them, the call goes on. A call that is over stays as it is.
pub open spec fn step(call: Progress, event: Event) -> Progress {
    match call.stage {
        Stage::ResolvingProject => match event {
            Event::Done => if needs_key(call.operation) {
                Progress { stage: Stage::FetchingKey, ..call }
            } else {
                entering(call)
            },
            Event::Missing => failing(call, ControllerError::Other(Context::ProjectNotFound)),
            Event::Failed => failing(call, ControllerError::Other(Context::GetProject)),
            _ => failing(call, ControllerError::Other(Context::Unexpected)),
        },
        Stage::FetchingKey => match event {
            Event::Done => entering(call),
            Event::Failed => failing(call, ControllerError::Other(Context::PrivateKey)),
            _ => failing(call, ControllerError::Other(Context::Unexpected)),
        },
        Stage::Acquiring => match event {
            Event::Done => Progress { stage: Stage::OpeningProject, holding: true, ..call },
            Event::Failed => failing(call, ControllerError::LockError),
            _ => failing(call, ControllerError::Other(Context::Unexpected)),
        },
        Stage::OpeningProject => match event {
            Event::Done => Progress { stage: Stage::OpeningStore, ..call },
            Event::Failed => failing(
                call,
                ControllerError::Other(Context::OpenProjectRepository),
            ),
            _ => failing(call, ControllerError::Other(Context::Unexpected)),
        },
        Stage::OpeningStore => match event {
            Event::Done => if guards_conflicts(call.operation) {
                Progress { stage: Stage::CheckingConflicts, ..call }
            } else {
                running(call, 0)
            },
            Event::Failed => failing(call, ControllerError::Other(Context::OpenRepository)),
            _ => failing(call, ControllerError::Other(Context::Unexpected)),
        },
        Stage::CheckingConflicts => match event {
            Event::Resolving(true) => failing(call, ControllerError::Conflicting),
            Event::Resolving(false) => running(call, 0),
            _ => failing(call, ControllerError::Other(Context::Unexpected)),
        },
        Stage::Running(number) => match event {
            Event::Done => if number + 1 < work_of(call.operation).len() {
                running(call, (number + 1) as usize)
            } else {
                concluding(call)
            },
            Event::Failed => failing(call, ControllerError::Other(Context::Work)),
            Event::PushRefused => if call.operation == Operation::PushVirtualBranch {
                failing(call, ControllerError::PushError)
            } else {
                failing(call, ControllerError::Other(Context::Unexpected))
            },
            _ => failing(call, ControllerError::Other(Context::Unexpected)),
        },
        Stage::Releasing => leaving(call),
        Stage::Rewriting => Progress { stage: Stage::Finished, ..call },
        Stage::Finished => call,
    }
}

/// Where the call stands after the reports `events`, one after the other.
pub open spec fn after(call: Progress, events: Seq<Event>) -> Progress
    decreases events.len(),
{
    if events.len() == 0 {
        call
    } else {
        step(after(call, events.drop_last()), events.last())
    }
}

/// What holds of a call wherever it stands.
pub open spec fn consistent(call: Progress) -> bool {
    &&& call.holding ==> takes_permit(call.operation)
    &&& call.holding <==> (takes_permit(call.operation) && (call.stage is OpeningProject
        || call.stage is OpeningStore || call.stage is CheckingConflicts
        || call.stage is Running)) || call.stage is Releasing
    &&& call.stage is Acquiring ==> takes_permit(call.operation)
    &&& call.stage is CheckingConflicts ==> guards_conflicts(call.operation)
    &&& call.stage matches Stage::Running(number) ==> number < work_of(call.operation).len()
        && call.begun == number + 1
    &&& !(call.stage is Running || call.stage is Releasing || call.stage is Rewriting
        || call.stage is Finished) ==> call.begun == 0
    &&& call.begun <= work_of(call.operation).len()
    &&& call.verdict == Verdict::Failed(ControllerError::Conflicting) ==> call.begun
        == 0
    &&& call.stage is Rewriting ==> call.verdict is Done
    &&& call.verdict is Failed ==> call.stage is Releasing || call.stage is Finished
    &&& call.verdict == Verdict::Failed(ControllerError::PushError)
        ==> call.operation == Operation::PushVirtualBranch
}

/// Every operation is made of one piece of work or of two.
pub proof fn lemma_work_count(operation: Operation)
    ensures
        1 <= work_of(operation).len() <= 2,
{
}

/// A call that has just begun is consistent, and every report leaves it so.
pub proof fn lemma_step_consistent(call: Progress, event: Event)
    requires
        consistent(call),
    ensures
        consistent(step(call, event)),
        forall|operation: Operation| consistent(#[trigger] begun(operation)),
{
    lemma_work_count(call.operation);
    assert forall|operation: Operation| consistent(#[trigger] begun(operation)) by {
        lemma_work_count(operation);
    }
}

/// Whatever is reported, in whatever order, the call stays consistent.
pub proof fn lemma_always_consistent(operation: Operation, events: Seq<Event>)
    ensures
        consistent(after(begun(operation), events)),
    decreases events.len(),
{
    if events.len() > 0 {
        lemma_always_consistent(operation, events.drop_last());
        lemma_step_consistent(after(begun(operation), events.drop_last()), events.last());
    }
}

/// The permit is given back on every way out: a call never ends while it
/// holds the permit, and never rewrites avatars while it holds it.
pub proof fn lemma_ends_without_permit(operation: Operation, events: Seq<Event>)
    ensures
        ({
            let call = after(begun(operation), events);
            (pending(call) is Finish || pending(call) is RewriteAvatars) ==> !call.holding
        }),
{
    lemma_always_consistent(operation, events);
}

/// Work on the branches of a project is only ever asked for while the call
/// holds the permit of the project, but for the one operation that runs
/// without it.
pub proof fn lemma_work_under_permit(operation: Operation, events: Seq<Event>)
    ensures
        ({
            let call = after(begun(operation), events);
            (pending(call) is Run || pending(call) is AskConflicts
                || pending(call) is OpenProjectRepository || pending(call) is OpenBranchStore)
                ==> call.holding == takes_permit(operation)
        }),
{
    lemma_always_consistent(operation, events);
    lemma_operation_kept(operation, events);
}

/// A call that is refused because conflicts are being resolved has begun
/// no work: nothing was changed.
pub proof fn lemma_conflicting_changes_nothing(operation: Operation, events: Seq<Event>)
    ensures
        ({
            let call = after(begun(operation), events);
            call.verdict == Verdict::Failed(ControllerError::Conflicting)
                ==> call.begun == 0
        }),
{
    lemma_always_consistent(operation, events);
}

/// Creating a branch while conflicts are being resolved is refused: from
/// the question about conflicts, the answer that they are leads straight
/// to giving the permit back, and the call ends with `Conflicting`.
pub proof fn lemma_create_refused_on_conflicts(call: Progress)
    requires
        consistent(call),
        call.stage is CheckingConflicts,
    ensures
        call.operation == Operation::CreateVirtualBranch,
        pending(step(call, Event::Resolving(true))) == Action::ReleasePermit,
        forall|event: Event|
            pending(#[trigger] step(step(call, Event::Resolving(true)), event)) == Action::Finish(
                Verdict::Failed(ControllerError::Conflicting),
            ),
        step(call, Event::Resolving(true)).begun == 0,
{
}

/// Reading the base branch never asks for the permit and never holds it.
pub proof fn lemma_base_branch_read_without_permit(events: Seq<Event>)
    ensures
        ({
            let call = after(begun(Operation::GetBaseBranchData), events);
            !call.holding && pending(call) != Action::AcquirePermit && pending(call)
                != Action::ReleasePermit
        }),
{
    lemma_always_consistent(Operation::GetBaseBranchData, events);
    lemma_operation_kept(Operation::GetBaseBranchData, events);
}

/// A call stays a call of the operation that it began as.
pub proof fn lemma_operation_kept(operation: Operation, events: Seq<Event>)
    ensures
        after(begun(operation), events).operation == operation,
    decreases events.len(),
{
    if events.len() > 0 {
        lemma_operation_kept(operation, events.drop_last());
    }
}

/// The signing key is fetched before the permit is asked for: while the key
/// is awaited the call does not hold the permit.
pub proof fn lemma_key_outside_permit(operation: Operation, events: Seq<Event>)
    ensures
        ({
            let call = after(begun(operation), events);
            pending(call) is FetchKey ==> !call.holding
        }),
{
    lemma_always_consistent(operation, events);
}

/// One call of an operation on a project.
pub struct Call {
    project_id: String,
    progress: Progress,
}

fn runs_under_permit(operation: Operation) -> (takes: bool)
    ensures
        takes == takes_permit(operation),
{
    match operation {
        Operation::GetBaseBranchData => false,
        _ => true,
    }
}

fn signs(operation: Operation) -> (needs: bool)
    ensures
        needs == needs_key(operation),
{
    match operation {
        Operation::PushVirtualBranch => true,
        _ => false,
    }
}

fn refused_on_conflicts(operation: Operation) -> (guards: bool)
    ensures
        guards == guards_conflicts(operation),
{
    match operation {
        Operation::CreateVirtualBranch => true,
        _ => false,
    }
}

fn has_avatars(operation: Operation) -> (rewrites: bool)
    ensures
        rewrites == rewrites_avatars(operation),
{
    match operation {
        Operation::ListVirtualBranches => true,
        Operation::GetBaseBranchData => true,
        Operation::SetBaseBranch => true,
        _ => false,
    }
}

/// The number of pieces of work that the operation is made of.
pub fn work_count(operation: Operation) -> (count: usize)
    ensures
        count == work_of(operation).len(),
        1 <= count <= 2,
{
    match operation {
        Operation::CreateVirtualBranchFromBranch => 2,
        _ => 1,
    }
}

/// The piece of work with the given number, counted from 0.
pub fn work_at(operation: Operation, number: usize) -> (work: Option<Work>)
    ensures
        number < work_of(operation).len() ==> work == Some(work_of(operation)[number as int]),
        number >= work_of(operation).len() ==> work is None,
{
    if number >= work_count(operation) {
        return None;
    }
    Some(
        match operation {
            Operation::CreateCommit => Work::Commit,
            Operation::ListVirtualBranches => Work::ListBranches,
            Operation::CreateVirtualBranch => Work::CreateBranch,
            Operation::CreateVirtualBranchFromBranch => if number == 0 {
                Work::CreateBranchFromBranch
            } else {
                Work::ApplyBranch
            },
            Operation::GetBaseBranchData => Work::GetBaseBranch,
            Operation::SetBaseBranch => Work::SetBaseBranch,
            Operation::UpdateBaseBranch => Work::UpdateBaseBranch,
            Operation::UpdateVirtualBranch => Work::UpdateBranch,
            Operation::DeleteVirtualBranch => Work::DeleteBranch,
            Operation::ApplyVirtualBranch => Work::ApplyBranch,
            Operation::UnapplyVirtualBranch => Work::UnapplyBranch,
            Operation::PushVirtualBranch => Work::Push,
        },
    )
}

fn fail(call: Progress, error: ControllerError) -> (next: Progress)
    ensures
        next == failing(call, error),
{
    Progress {
        stage: if call.holding {
            Stage::Releasing
        } else {
            Stage::Finished
        },
        verdict: Verdict::Failed(error),
        ..call
    }
}

fn enter(call: Progress) -> (next: Progress)
    ensures
        next == entering(call),
{
    Progress {
        stage: if runs_under_permit(call.operation) {
            Stage::Acquiring
        } else {
            Stage::OpeningProject
        },
        ..call
    }
}

fn run(call: Progress, number: usize) -> (next: Progress)
    requires
        number < usize::MAX,
    ensures
        next == running(call, number),
{
    Progress { stage: Stage::Running(number), begun: number + 1, ..call }
}

fn leave(call: Progress) -> (next: Progress)
    ensures
        next == leaving(call),
{
    let rewrite = match call.verdict {
        Verdict::Done => has_avatars(call.operation),
        Verdict::Failed(_) => false,
    };
    Progress {
        stage: if rewrite {
            Stage::Rewriting
        } else {
            Stage::Finished
        },
        holding: false,
        ..call
    }
}

fn conclude(call: Progress) -> (next: Progress)
    ensures
        next == concluding(call),
{
    if call.holding {
        Progress { stage: Stage::Releasing, ..call }
    } else {
        leave(call)
    }
}

/// Where a consistent call stands after the report `event` on its pending
/// step.
pub fn next_step(call: Progress, event: Event) -> (next: Progress)
    requires
        consistent(call),
    ensures
        next == step(call, event),
        consistent(next),
{
    proof {
        lemma_step_consistent(call, event);
        lemma_work_count(call.operation);
    }
    let unexpected = ControllerError::Other(Context::Unexpected);
    match call.stage {
        Stage::ResolvingProject => match event {
            Event::Done => if signs(call.operation) {
                Progress { stage: Stage::FetchingKey, ..call }
            } else {
                enter(call)
            },
            Event::Missing => fail(call, ControllerError::Other(Context::ProjectNotFound)),
            Event::Failed => fail(call, ControllerError::Other(Context::GetProject)),
            _ => fail(call, unexpected),
        },
        Stage::FetchingKey => match event {
            Event::Done => enter(call),
            Event::Failed => fail(call, ControllerError::Other(Context::PrivateKey)),
            _ => fail(call, unexpected),
        },
        Stage::Acquiring => match event {
            Event::Done => Progress { stage: Stage::OpeningProject, holding: true, ..call },
            Event::Failed => fail(call, ControllerError::LockError),
            _ => fail(call, unexpected),
        },
        Stage::OpeningProject => match event {
            Event::Done => Progress { stage: Stage::OpeningStore, ..call },
            Event::Failed => fail(call, ControllerError::Other(Context::OpenProjectRepository)),
            _ => fail(call, unexpected),
        },
        Stage::OpeningStore => match event {
            Event::Done => if refused_on_conflicts(call.operation) {
                Progress { stage: Stage::CheckingConflicts, ..call }
            } else {
                run(call, 0)
            },
            Event::Failed => fail(call, ControllerError::Other(Context::OpenRepository)),
            _ => fail(call, unexpected),
        },
        Stage::CheckingConflicts => match event {
            Event::Resolving(true) => fail(call, ControllerError::Conflicting),
            Event::Resolving(false) => run(call, 0),
            _ => fail(call, unexpected),
        },
        Stage::Running(number) => match event {
            Event::Done => if number + 1 < work_count(call.operation) {
                run(call, number + 1)
            } else {
                conclude(call)
            },
            Event::Failed => fail(call, ControllerError::Other(Context::Work)),
            Event::PushRefused => match call.operation {
                Operation::PushVirtualBranch => fail(call, ControllerError::PushError),
                _ => fail(call, unexpected),
            },
            _ => fail(call, unexpected),
        },
        Stage::Releasing => leave(call),
        Stage::Rewriting => Progress { stage: Stage::Finished, ..call },
        Stage::Finished => call,
    }
}

/// What the caller is asked to do where a consistent call stands.
pub fn pending_action(call: Progress) -> (action: Action)
    requires
        consistent(call),
    ensures
        action == pending(call),
{
    match call.stage {
        Stage::ResolvingProject => Action::ResolveProject,
        Stage::FetchingKey => Action::FetchKey,
        Stage::Acquiring => Action::AcquirePermit,
        Stage::OpeningProject => Action::OpenProjectRepository,
        Stage::OpeningStore => Action::OpenBranchStore,
        Stage::CheckingConflicts => Action::AskConflicts,
        Stage::Running(number) => match work_at(call.operation, number) {
            Some(work) => Action::Run(work),
            None => Action::Finish(call.verdict),
        },
        Stage::Releasing => Action::ReleasePermit,
        Stage::Rewriting => Action::RewriteAvatars,
        Stage::Finished => Action::Finish(call.verdict),
    }
}

impl Call {
    #[verifier::type_invariant]
    spec fn inv(self) -> bool {
        consistent(self.progress)
    }

    /// Where the call stands.
    pub closed spec fn progress(&self) -> Progress {
        self.progress
    }

    /// The project that the call is about.
    pub closed spec fn project(&self) -> String {
        self.project_id
    }

    /// A call of `operation` on the project `project_id`, before its first
    /// step.
    pub fn begin(operation: Operation, project_id: &str) -> (call: Call)
        ensures
            call.progress() == begun(operation),
            call.project()@ == project_id@,
    {
        proof {
            lemma_work_count(operation);
        }
        Call {
            project_id: project_id.to_owned(),
            progress: Progress {
                operation,
                stage: Stage::ResolvingProject,
                holding: false,
                begun: 0,
                verdict: Verdict::Done,
            },
        }
    }

    /// The project that the call is about.
    pub fn project_id(&self) -> (id: &str)
        ensures
            id@ == self.project()@,
    {
        self.project_id.as_str()
    }

    /// Where the call stands. A call is always consistent.
    pub fn state(&self) -> (progress: Progress)
        ensures
            progress == self.progress(),
            consistent(progress),
    {
        proof {
            use_type_invariant(self);
        }
        self.progress
    }

    /// What the caller is asked to do next.
    pub fn pending(&self) -> (action: Action)
        ensures
            action == pending(self.progress()),
    {
        proof {
            use_type_invariant(self);
        }
        pending_action(self.progress)
    }

    /// Whether the call holds the permit of its project.
    pub fn holds_permit(&self) -> (holding: bool)
        ensures
            holding == self.progress().holding,
            pending(self.progress()) is Finish ==> !holding,
    {
        proof {
            use_type_invariant(self);
        }
        self.progress.holding
    }

    /// The call after the report `event` on its pending step.
    pub fn advance(self, event: Event) -> (next: Call)
        ensures
            next.progress() == step(self.progress(), event),
            next.project() == self.project(),
    {
        proof {
            use_type_invariant(&self);
        }
        Call { project_id: self.project_id, progress: next_step(self.progress, event) }
    }
}

/// The controller of virtual branches, as far as it decides. It begins the
/// calls; the steps of a call are carried out by its caller.
pub struct Controller {
    local_data_dir: String,
}

impl Controller {
    /// A controller that keeps the stores of the branches under
    /// `local_data_dir`.
    pub fn new(local_data_dir: String) -> (controller: Controller)
        ensures
            controller.data_dir() == local_data_dir,
    {
        Controller { local_data_dir }
    }

    /// The directory under which the stores of the branches are kept.
    pub closed spec fn data_dir(&self) -> String {
        self.local_data_dir
    }

    /// The directory under which the stores of the branches are kept.
    pub fn local_data_dir(&self) -> (dir: &str)
        ensures
            dir@ == self.data_dir()@,
    {
        self.local_data_dir.as_str()
    }

    /// Records the applied changes of a branch as a commit. The call begins with the lookup of
    /// the project.
    pub fn create_commit(&self, project_id: &str) -> (call: Call)
        ensures
            call.progress() == begun(Operation::CreateCommit),
            call.project()@ == project_id@,
    {
        Call::begin(Operation::CreateCommit, project_id)
    }

    /// Lists the branches of the project, with the files that were passed over. The call begins with the lookup of
    /// the project.
    pub fn list_virtual_branches(&self, project_id: &str) -> (call: Call)
        ensures
            call.progress() == begun(Operation::ListVirtualBranches),
            call.project()@ == project_id@,
    {
        Call::begin(Operation::ListVirtualBranches, project_id)
    }

    /// Creates a branch, unless conflicts are being resolved. The call begins with the lookup of
    /// the project.
    pub fn create_virtual_branch(&self, project_id: &str) -> (call: Call)
        ensures
            call.progress() == begun(Operation::CreateVirtualBranch),
            call.project()@ == project_id@,
    {
        Call::begin(Operation::CreateVirtualBranch, project_id)
    }

    /// Creates a branch from a branch of the repository and applies it, under one permit. The call begins with the lookup of
    /// the project.
    pub fn create_virtual_branch_from_branch(&self, project_id: &str) -> (call: Call)
        ensures
            call.progress() == begun(Operation::CreateVirtualBranchFromBranch),
            call.project()@ == project_id@,
    {
        Call::begin(Operation::CreateVirtualBranchFromBranch, project_id)
    }

    /// Reads the base branch. This is the one operation that runs without the permit of the project. The call begins with the lookup of
    /// the project.
    pub fn get_base_branch_data(&self, project_id: &str) -> (call: Call)
        ensures
            call.progress() == begun(Operation::GetBaseBranchData),
            call.project()@ == project_id@,
    {
        Call::begin(Operation::GetBaseBranchData, project_id)
    }

    /// Points the base branch at another target. The call begins with the lookup of
    /// the project.
    pub fn set_base_branch(&self, project_id: &str) -> (call: Call)
        ensures
            call.progress() == begun(Operation::SetBaseBranch),
            call.project()@ == project_id@,
    {
        Call::begin(Operation::SetBaseBranch, project_id)
    }

    /// Brings the base branch up to its target. The call begins with the lookup of
    /// the project.
    pub fn update_base_branch(&self, project_id: &str) -> (call: Call)
        ensures
            call.progress() == begun(Operation::UpdateBaseBranch),
            call.project()@ == project_id@,
    {
        Call::begin(Operation::UpdateBaseBranch, project_id)
    }

    /// Changes what is recorded of a branch. The call begins with the lookup of
    /// the project.
    pub fn update_virtual_branch(&self, project_id: &str) -> (call: Call)
        ensures
            call.progress() == begun(Operation::UpdateVirtualBranch),
            call.project()@ == project_id@,
    {
        Call::begin(Operation::UpdateVirtualBranch, project_id)
    }

    /// Deletes a branch. The call begins with the lookup of
    /// the project.
    pub fn delete_virtual_branch(&self, project_id: &str) -> (call: Call)
        ensures
            call.progress() == begun(Operation::DeleteVirtualBranch),
            call.project()@ == project_id@,
    {
        Call::begin(Operation::DeleteVirtualBranch, project_id)
    }

    /// Applies a branch to the working directory. The call begins with the lookup of
    /// the project.
    pub fn apply_virtual_branch(&self, project_id: &str) -> (call: Call)
        ensures
            call.progress() == begun(Operation::ApplyVirtualBranch),
            call.project()@ == project_id@,
    {
        Call::begin(Operation::ApplyVirtualBranch, project_id)
    }

    /// Takes a branch out of the working directory. The call begins with the lookup of
    /// the project.
    pub fn unapply_virtual_branch(&self, project_id: &str) -> (call: Call)
        ensures
            call.progress() == begun(Operation::UnapplyVirtualBranch),
            call.project()@ == project_id@,
    {
        Call::begin(Operation::UnapplyVirtualBranch, project_id)
    }

    /// Pushes the commits of a branch. The signing key is fetched before the permit is asked for. The call begins with the lookup of
    /// the project.
    pub fn push_virtual_branch(&self, project_id: &str) -> (call: Call)
        ensures
            call.progress() == begun(Operation::PushVirtualBranch),
            call.project()@ == project_id@,
    {
        Call::begin(Operation::PushVirtualBranch, project_id)
    }
}

} // verus!
