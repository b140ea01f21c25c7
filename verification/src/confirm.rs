//! Per-user confirmation of deferred actions.
//!
//! Any subsystem may defer a sensitive action behind an explicit yes/no
//! approval from the requesting user: it registers a [`ConfirmableTask`] for
//! that user, and the user's later "yes" or "no" resolves it. The registry
//! keeps at most one pending task per user and removes a task atomically
//! before handing it out, so no task is ever performed twice.

use vstd::prelude::*;

use dashmap::DashMap;

verus! {

/// The concurrent map that backs this module, keyed by user identifier.
pub type TaskMap = DashMap<u64, ConfirmableTask>;

/// A deferred action awaiting its requester's explicit approval. The action
/// is captured as data; the layer that receives an approved task interprets
/// and performs it. The registry hands a task out at most once, removing it
/// in the same step.
#[derive(Debug)]
pub struct ConfirmableTask {
    action: String,
}

impl View for ConfirmableTask {
    type V = Seq<char>;

    closed spec fn view(&self) -> Seq<char> {
        self.action@
    }
}

impl ConfirmableTask {
    /// Captures an action, described as data, to be performed only on approval.
    pub fn new(action: String) -> (r: Self)
        ensures
            r@ == action@,
    {
        ConfirmableTask { action }
    }

    /// Surrenders the captured action to the layer that will perform it.
    pub fn into_action(self) -> (r: String)
        ensures
            r@ == self@,
    {
        self.action
    }
}

/// How a confirm or deny call resolved.
#[derive(Debug)]
pub enum Outcome {
    /// A pending task was found and removed; the caller must now perform it.
    Approved(ConfirmableTask),
    /// A pending task was found and removed without being performed.
    Denied,
    /// Nothing was pending for the user.
    NothingPending,
}

/// The pending tasks that a registry's map holds, keyed by user identifier,
/// each task as the view of its captured action.
pub uninterp spec fn pending_tasks(m: TaskMap) -> Map<u64, Seq<char>>;

/// `m` holds no pending task at all.
pub open spec fn no_pending_tasks(m: TaskMap) -> bool {
    pending_tasks(m) == Map::<u64, Seq<char>>::empty()
}

/// Relies on `DashMap::new`: a freshly created map is empty.
#[verifier::external_body]
fn new_task_map() -> (r: TaskMap)
    ensures
        no_pending_tasks(r),
{
    DashMap::new()
}

/// Relies on `DashMap::insert`: stores the task under the user's key,
/// replacing the entry that was there, if any; the replaced task is dropped
/// without being performed.
#[verifier::external_body]
fn insert_task(m: &mut TaskMap, user: u64, task: ConfirmableTask)
    ensures
        pending_tasks(*final(m)) == pending_tasks(*old(m)).insert(user, task@),
{
    m.insert(user, task);
}

/// Relies on `DashMap::remove`: removes and returns the entry for the key, if
/// any. The removal is atomic in dashmap — of several racing callers only one
/// can receive the entry — which is what makes resolution at-most-once.
#[verifier::external_body]
fn remove_task(m: &mut TaskMap, user: u64) -> (r: Option<ConfirmableTask>)
    ensures
        pending_tasks(*old(m)).dom().contains(user) ==> (match r {
            Some(t) => t@ == pending_tasks(*old(m))[user] && pending_tasks(*final(m))
                == pending_tasks(*old(m)).remove(user),
            None => false,
        }),
        !pending_tasks(*old(m)).dom().contains(user) ==> (r is None && pending_tasks(*final(m))
            == pending_tasks(*old(m))),
{
    m.remove(&user).map(|(_, task)| task)
}

/// Relies on `DashMap::contains_key`: whether the map has an entry for the key.
#[verifier::external_body]
fn contains_task(m: &TaskMap, user: u64) -> (r: bool)
    ensures
        r == pending_tasks(*m).dom().contains(user),
{
    m.contains_key(&user)
}

/// A concurrent mapping from user identity to at most one pending
/// [`ConfirmableTask`]. Registering replaces; confirm and deny resolve by an
/// atomic remove-and-inspect, so a task is performed at most once and never
/// after a denial.
pub struct ConfirmationRegistry {
    tasks: TaskMap,
}

impl ConfirmationRegistry {
    /// The pending tasks, keyed by user, each as the view of its action.
    pub closed spec fn pending(self) -> Map<u64, Seq<char>> {
        pending_tasks(self.tasks)
    }

    /// A registry with nothing pending.
    pub fn new() -> (r: Self)
        ensures
            r.pending() == Map::<u64, Seq<char>>::empty(),
    {
        ConfirmationRegistry { tasks: new_task_map() }
    }

    /// Defers `task` behind `user`'s approval. Afterwards exactly the task
    /// just given is pending for `user`; a previously pending one, if any, is
    /// discarded without being performed, and no other user's entry moves.
    pub fn register(&mut self, user: u64, task: ConfirmableTask)
        ensures
            final(self).pending() == old(self).pending().insert(user, task@),
            final(self).pending().dom().contains(user),
            final(self).pending()[user] == task@,
    {
        insert_task(&mut self.tasks, user, task);
    }

    /// Resolves `user`'s pending approval affirmatively: removes the entry,
    /// and if a task was pending returns it for the caller to perform.
    /// Otherwise nothing was pending and the registry is unchanged.
    pub fn confirm(&mut self, user: u64) -> (r: Outcome)
        ensures
            old(self).pending().dom().contains(user) ==> (match r {
                Outcome::Approved(t) => t@ == old(self).pending()[user],
                _ => false,
            }) && final(self).pending() == old(self).pending().remove(user),
            !old(self).pending().dom().contains(user) ==> r is NothingPending && final(self).pending() == old(self).pending(),
    {
        match remove_task(&mut self.tasks, user) {
            Some(task) => Outcome::Approved(task),
            None => Outcome::NothingPending,
        }
    }

    /// Resolves `user`'s pending approval negatively: removes the entry
    /// without performing the task. If one was pending the outcome is the
    /// denial acknowledgment; otherwise nothing was pending and the registry
    /// is unchanged.
    pub fn deny(&mut self, user: u64) -> (r: Outcome)
        ensures
            old(self).pending().dom().contains(user) ==> r is Denied && final(self).pending()
                == old(self).pending().remove(user),
            !old(self).pending().dom().contains(user) ==> r is NothingPending && final(self).pending() == old(self).pending(),
    {
        match remove_task(&mut self.tasks, user) {
            Some(_) => Outcome::Denied,
            None => Outcome::NothingPending,
        }
    }

    /// Whether a task is pending for `user`.
    pub fn has_pending(&self, user: u64) -> (r: bool)
        ensures
            r == self.pending().dom().contains(user),
    {
        contains_task(&self.tasks, user)
    }
}

/// The text of the reply sent when a confirm or deny finds nothing pending.
pub open spec fn no_pending_text() -> Seq<char> {
    "Its seems that you don't have anything waiting for your approval."@
}

/// The text of the acknowledgment sent on a successful deny.
pub open spec fn denial_text() -> Seq<char> {
    "Alright, I won't do that."@
}

/// The reply for a confirm or deny that found nothing pending.
pub fn no_pending_reply() -> (r: &'static str)
    ensures
        r@ == no_pending_text(),
{
    "Its seems that you don't have anything waiting for your approval."
}

/// The acknowledgment for a successful deny.
pub fn denial_reply() -> (r: &'static str)
    ensures
        r@ == denial_text(),
{
    "Alright, I won't do that."
}

/// The fixed reply that an outcome calls for: the denial acknowledgment, or
/// the nothing-pending message. An approved outcome has no fixed reply — what
/// the user sees is whatever performing the task produces.
pub fn reply_for(outcome: &Outcome) -> (r: Option<&'static str>)
    ensures
        match outcome {
            Outcome::Approved(_) => r is None,
            Outcome::Denied => match r {
                Some(s) => s@ == denial_text(),
                None => false,
            },
            Outcome::NothingPending => match r {
                Some(s) => s@ == no_pending_text(),
                None => false,
            },
        },
{
    match outcome {
        Outcome::Approved(_) => None,
        Outcome::Denied => Some(denial_reply()),
        Outcome::NothingPending => Some(no_pending_reply()),
    }
}

/// Registering pends exactly one task: for every prior registry content,
/// after a register the user's one pending task is the task just given, and
/// every other user's entry is exactly as it was.
pub proof fn lemma_register_pends_exactly_one(m: Map<u64, Seq<char>>, user: u64, action: Seq<char>)
    ensures
        m.insert(user, action).dom().contains(user),
        m.insert(user, action)[user] == action,
        forall|v: u64|
            v != user ==> m.insert(user, action).dom().contains(v) == m.dom().contains(v),
        forall|v: u64| v != user && m.dom().contains(v) ==> m.insert(user, action)[v] == m[v],
{
}

/// Confirm and deny are idempotent in effect on the nothing-pending path:
/// resolving a user's entry leaves the registry without one for that user, so
/// a second confirm or deny finds nothing pending — and removing again
/// changes nothing.
pub proof fn lemma_second_resolution_finds_nothing(m: Map<u64, Seq<char>>, user: u64)
    ensures
        !m.remove(user).dom().contains(user),
        m.remove(user).remove(user) == m.remove(user),
{
    assert(m.remove(user).remove(user) =~= m.remove(user));
}

/// The registry contents after `n` successive resolutions (confirm or deny)
/// for one user.
pub open spec fn resolve_n(m: Map<u64, Seq<char>>, user: u64, n: nat) -> Map<u64, Seq<char>>
    decreases n,
{
    if n == 0 {
        m
    } else {
        resolve_n(m, user, (n - 1) as nat).remove(user)
    }
}

/// At-most-once execution, in the sequential order the atomic remove imposes:
/// with one task pending for a user, of any chain of confirm calls exactly
/// the first finds the entry — it alone receives the task — and after any
/// number of further resolutions the registry is as after the single removal,
/// with nothing pending for that user.
pub proof fn lemma_at_most_once_execution(m: Map<u64, Seq<char>>, user: u64, n: nat)
    requires
        n >= 1,
    ensures
        resolve_n(m, user, n) == m.remove(user),
        !resolve_n(m, user, n).dom().contains(user),
    decreases n,
{
    if n == 1 {
        assert(resolve_n(m, user, n) == resolve_n(m, user, 0).remove(user));
        assert(resolve_n(m, user, 0) == m);
    } else {
        lemma_at_most_once_execution(m, user, (n - 1) as nat);
        assert(resolve_n(m, user, n) == resolve_n(m, user, (n - 1) as nat).remove(user));
        assert(m.remove(user).remove(user) =~= m.remove(user));
    }
}

} // verus!
