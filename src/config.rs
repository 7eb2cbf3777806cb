use vstd::prelude::*;
use core::any::TypeId;

verus! {

/// One scheduling constraint on a task, naming the set of a data kind.
#[derive(Clone, Copy, Debug, PartialEq, Eq, Hash)]
pub enum Constraint {
    /// The task runs only after every member of the set has completed.
    RunsAfter(TypeId),
    /// The task is a member of the set.
    InSet(TypeId),
}

/// The scheduling metadata of one task: its constraints, in the order they were added.
pub struct TaskConfig {
    pub constraints: Vec<Constraint>,
}

impl View for TaskConfig {
    type V = Seq<Constraint>;

    open spec fn view(&self) -> Seq<Constraint> {
        self.constraints@
    }
}

/// "Run after the set of each kind", one constraint per kind, in order.
pub open spec fn after_all(kinds: Seq<TypeId>) -> Seq<Constraint> {
    kinds.map_values(|k: TypeId| Constraint::RunsAfter(k))
}

/// "Belong to the set of each kind", one constraint per kind, in order.
pub open spec fn in_all(kinds: Seq<TypeId>) -> Seq<Constraint> {
    kinds.map_values(|k: TypeId| Constraint::InSet(k))
}

/// A task configured with `a` must complete before one configured with `b` starts:
/// `a` belongs to some set that `b` runs after.
pub open spec fn ordered_before(a: Seq<Constraint>, b: Seq<Constraint>) -> bool {
    exists|k: TypeId| a.contains(Constraint::InSet(k)) && b.contains(Constraint::RunsAfter(k))
}

pub broadcast proof fn lemma_after_all_concat(a: Seq<TypeId>, b: Seq<TypeId>)
    ensures
        #[trigger] after_all(a + b) == after_all(a) + after_all(b),
{
    assert(after_all(a + b) =~= after_all(a) + after_all(b));
}

pub broadcast proof fn lemma_in_all_concat(a: Seq<TypeId>, b: Seq<TypeId>)
    ensures
        #[trigger] in_all(a + b) == in_all(a) + in_all(b),
{
    assert(in_all(a + b) =~= in_all(a) + in_all(b));
}

impl TaskConfig {
    /// A configuration with no constraints.
    pub fn new() -> (r: TaskConfig)
        ensures
            r@ == Seq::<Constraint>::empty(),
    {
        TaskConfig { constraints: Vec::new() }
    }

    /// Requires that the set of `kind` has completed before the task starts.
    pub fn after(self, kind: TypeId) -> (r: TaskConfig)
        ensures
            r@ == self@.push(Constraint::RunsAfter(kind)),
    {
        let mut constraints = self.constraints;
        constraints.push(Constraint::RunsAfter(kind));
        TaskConfig { constraints }
    }

    /// Declares the task a member of the set of `kind`.
    pub fn in_set(self, kind: TypeId) -> (r: TaskConfig)
        ensures
            r@ == self@.push(Constraint::InSet(kind)),
    {
        let mut constraints = self.constraints;
        constraints.push(Constraint::InSet(kind));
        TaskConfig { constraints }
    }

    /// Whether this configuration declares membership in the set of `kind`.
    pub fn is_in_set(&self, kind: &TypeId) -> (r: bool)
        ensures
            r == self@.contains(Constraint::InSet(*kind)),
    {
        let mut i: usize = 0;
        while i < self.constraints.len()
            invariant
                i <= self@.len(),
                forall|j: int| 0 <= j < i ==> self@[j] != Constraint::InSet(*kind),
            decreases self@.len() - i,
        {
            match &self.constraints[i] {
                Constraint::InSet(k) => {
                    if k.eq(kind) {
                        assert(self@[i as int] == Constraint::InSet(*kind));
                        return true;
                    }
                },
                Constraint::RunsAfter(_) => {},
            }
            i = i + 1;
        }
        false
    }

    /// Whether a task configured with `self` must complete before one configured
    /// with `other` starts.
    pub fn must_run_before(&self, other: &TaskConfig) -> (r: bool)
        ensures
            r == ordered_before(self@, other@),
    {
        let mut i: usize = 0;
        while i < other.constraints.len()
            invariant
                i <= other@.len(),
                forall|j: int, k: TypeId|
                    0 <= j < i && other@[j] == Constraint::RunsAfter(k) ==> !self@.contains(
                        Constraint::InSet(k),
                    ),
            decreases other@.len() - i,
        {
            match &other.constraints[i] {
                Constraint::RunsAfter(k) => {
                    if self.is_in_set(k) {
                        assert(other@[i as int] == Constraint::RunsAfter(*k));
                        return true;
                    }
                },
                Constraint::InSet(_) => {},
            }
            i = i + 1;
        }
        proof {
            if ordered_before(self@, other@) {
                let k = choose|k: TypeId|
                    self@.contains(Constraint::InSet(k)) && other@.contains(
                        Constraint::RunsAfter(k),
                    );
                let j = choose|j: int| 0 <= j < other@.len() && other@[j] == Constraint::RunsAfter(k);
                assert(!self@.contains(Constraint::InSet(k)));
            }
        }
        false
    }
}

} // verus!
