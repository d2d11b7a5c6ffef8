//! The registry of per-project permits: one semaphore with a single permit
//! for each project, made when the project is first seen and kept from
//! then on.

use std::sync::Arc;
use tokio::sync::Semaphore;
use vstd::prelude::*;

verus! {

/// `tokio::sync::Semaphore`: nothing of it is looked into.
#[verifier::external_type_specification]
#[verifier::external_body]
pub struct ExSemaphore(tokio::sync::Semaphore);

/// The number of calls that may hold the permit of one project at a time.
pub const PERMITS_PER_PROJECT: usize = 1;

/// The number of permits that a semaphore was made with.
pub uninterp spec fn made_with(semaphore: Semaphore) -> nat;

/// `Semaphore::new`: a semaphore that starts with `permits` permits.
#[verifier::external_body]
fn new_semaphore(permits: usize) -> (semaphore: Semaphore)
    requires
        permits <= usize::MAX / 8,
    ensures
        made_with(semaphore) == permits,
{
    Semaphore::new(permits)
}

/// `Arc::clone`: another pointer to the same semaphore.
#[verifier::external_body]
fn share(semaphore: &Arc<Semaphore>) -> (shared: Arc<Semaphore>)
    ensures
        shared == *semaphore,
{
    Arc::clone(semaphore)
}

/// The registry of per-project permits. It only grows: a project that was
/// seen once keeps its semaphore for as long as the registry lives.
pub struct LockRegistry {
    projects: Vec<String>,
    permits: Vec<Arc<Semaphore>>,
}

impl View for LockRegistry {
    type V = Seq<Seq<char>>;

    /// The projects seen so far, in the order in which they were first seen.
    closed spec fn view(&self) -> Seq<Seq<char>> {
        self.projects.deep_view()
    }
}

impl LockRegistry {
    /// Every project seen stands once and has a semaphore of its own, made
    /// with a single permit.
    pub closed spec fn wf(self) -> bool {
        &&& self.projects.len() == self.permits.len()
        &&& forall|i: int, j: int|
            0 <= i < j < self.projects.len() ==> self.projects[i]@ != self.projects[j]@
        &&& forall|i: int|
            0 <= i < self.permits.len() ==> made_with(*#[trigger] self.permits[i])
                == PERMITS_PER_PROJECT
    }

    /// The place of a project among the projects seen.
    spec fn place_of(self, project: Seq<char>) -> int {
        choose|i: int| 0 <= i < self.projects.len() && self.projects[i]@ == project
    }

    /// The semaphore of a project that was seen.
    pub closed spec fn permit_of(self, project: Seq<char>) -> Semaphore {
        *self.permits[self.place_of(project)]
    }

    /// A registry that has seen no project.
    pub fn new() -> (registry: LockRegistry)
        ensures
            registry.wf(),
            registry@ == Seq::<Seq<char>>::empty(),
    {
        let projects: Vec<String> = Vec::new();
        assert(projects.deep_view() =~= Seq::<Seq<char>>::empty());
        LockRegistry { projects, permits: Vec::new() }
    }

    /// The number of projects seen.
    pub fn len(&self) -> (n: usize)
        ensures
            n == self@.len(),
    {
        self.projects.len()
    }

    /// The semaphore of `project_id`. A project that was seen before gets
    /// the semaphore it got then; a new one gets a semaphore of its own,
    /// made with a single permit, and is seen from now on. The semaphores
    /// of all other projects stay as they are.
    pub fn permit(&mut self, project_id: &str) -> (permit: Arc<Semaphore>)
        requires
            old(self).wf(),
        ensures
            final(self).wf(),
            final(self)@ == if old(self)@.contains(project_id@) {
                old(self)@
            } else {
                old(self)@.push(project_id@)
            },
            final(self)@.contains(project_id@),
            *permit == final(self).permit_of(project_id@),
            made_with(*permit) == PERMITS_PER_PROJECT,
            forall|other: Seq<char>|
                old(self)@.contains(other) ==> #[trigger] final(self).permit_of(other) == old(
                    self,
                ).permit_of(other),
    {
        let wanted = project_id.to_owned();
        let mut i: usize = 0;
        while i < self.projects.len()
            invariant
                i <= self.projects.len(),
                *self == *old(self),
                self.wf(),
                wanted@ == project_id@,
                forall|k: int| 0 <= k < i ==> self.projects[k]@ != project_id@,
            decreases self.projects.len() - i,
        {
            if self.projects[i] == wanted {
                proof {
                    assert(self@[i as int] == project_id@);
                    self.lemma_place(i as int);
                }
                return share(&self.permits[i]);
            }
            i = i + 1;
        }
        let ghost before = *self;
        proof {
            assert(!self@.contains(project_id@)) by {
                if self@.contains(project_id@) {
                    let k = choose|k: int| 0 <= k < self@.len() && self@[k] == project_id@;
                    assert(self.projects[k]@ == project_id@);
                }
            }
        }
        let permit = Arc::new(new_semaphore(PERMITS_PER_PROJECT));
        let shared = share(&permit);
        self.projects.push(wanted);
        self.permits.push(permit);
        proof {
            assert(self.projects.deep_view() =~= before.projects.deep_view().push(project_id@));
            assert(self@[self@.len() - 1] == project_id@);
            self.lemma_place(self.projects.len() - 1);
            assert forall|other: Seq<char>| before@.contains(other) implies #[trigger]
                self.permit_of(other) == before.permit_of(other) by {
                let k = choose|k: int| 0 <= k < before@.len() && before@[k] == other;
                assert(before.projects[k]@ == other);
                before.lemma_place(k);
                assert(self.projects[k]@ == other);
                self.lemma_place(k);
            }
        }
        shared
    }

    /// A project stands at one place only.
    proof fn lemma_place(self, i: int)
        requires
            self.wf(),
            0 <= i < self.projects.len(),
        ensures
            self.place_of(self.projects[i]@) == i,
    {
        let found = self.place_of(self.projects[i]@);
        assert(0 <= found < self.projects.len() && self.projects[found]@ == self.projects[i]@);
    }
}

} // verus!
