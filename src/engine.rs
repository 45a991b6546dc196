use vstd::prelude::*;
use crate::descriptor::{Repo, branch_ref_of, effective_branch};

verus! {

/// Where a synchronization run stands: which piece of outside work it waits on.
#[derive(PartialEq, Eq, Structural, Clone, Copy, Debug)]
pub enum SyncState {
    /// The validator is inspecting the local path.
    Validating,
    /// A valid repository is being fetched and fast-forwarded.
    Updating,
    /// The update failed; the local directory is being removed.
    Removing,
    /// A full clone is running.
    Cloning,
    /// The fresh clone is being checked by the validator.
    CheckingClone,
    /// The branch of the fresh clone is being checked out.
    CheckingOut,
    /// The run succeeded.
    Done,
    /// The run failed.
    Failed,
}

/// The outside work the caller performs next, or the run's outcome.
#[derive(Debug, PartialEq, Eq)]
pub enum Action {
    /// Run the repository validator on the local path.
    CheckRepo,
    /// Fetch from `origin` and force the named reference to the fetched commit.
    Update(String),
    /// Remove the local directory tree.
    RemoveDir,
    /// Clone the remote into the local path.
    Clone,
    /// Point HEAD at the named reference and force a checkout.
    Checkout(String),
    /// The run succeeded with this message.
    Succeed(String),
    /// The run failed with this message.
    Fail(String),
}

/// What the outside work reported.
#[derive(Debug)]
pub enum Event {
    /// The validator's answer.
    Checked(bool),
    /// The work succeeded.
    Succeeded,
    /// The work failed with this message.
    Failed(String),
}

/// Mathematical form of an [`Action`].
pub ghost enum ActionView {
    CheckRepo,
    Update(Seq<char>),
    RemoveDir,
    Clone,
    Checkout(Seq<char>),
    Succeed(Seq<char>),
    Fail(Seq<char>),
}

/// Mathematical form of an [`Event`].
pub ghost enum EventView {
    Checked(bool),
    Succeeded,
    Failed(Seq<char>),
}

impl View for Action {
    type V = ActionView;

    open spec fn view(&self) -> ActionView {
        match self {
            Action::CheckRepo => ActionView::CheckRepo,
            Action::Update(r) => ActionView::Update(r@),
            Action::RemoveDir => ActionView::RemoveDir,
            Action::Clone => ActionView::Clone,
            Action::Checkout(r) => ActionView::Checkout(r@),
            Action::Succeed(m) => ActionView::Succeed(m@),
            Action::Fail(m) => ActionView::Fail(m@),
        }
    }
}

impl View for Event {
    type V = EventView;

    open spec fn view(&self) -> EventView {
        match self {
            Event::Checked(b) => EventView::Checked(*b),
            Event::Succeeded => EventView::Succeeded,
            Event::Failed(m) => EventView::Failed(m@),
        }
    }
}

pub open spec fn updated_message() -> Seq<char> {
    "Repository updated successfully."@
}

pub open spec fn cloned_message() -> Seq<char> {
    "Repository cloned successfully."@
}

pub open spec fn invalid_clone_message() -> Seq<char> {
    "Failed to create a valid Git repository"@
}

pub open spec fn unexpected_message() -> Seq<char> {
    "Unexpected event for the synchronization state"@
}

/// The transition function: from a state and the report of the last piece of
/// outside work to the next state and what to do there. `branch_ref` is the
/// reference the run moves.
pub open spec fn next(s: SyncState, e: EventView, branch_ref: Seq<char>) -> (SyncState, ActionView) {
    match (s, e) {
        (SyncState::Validating, EventView::Checked(false)) => (SyncState::Cloning, ActionView::Clone),
        (SyncState::Validating, EventView::Checked(true)) => (SyncState::Updating, ActionView::Update(branch_ref)),
        (SyncState::Updating, EventView::Succeeded) => (SyncState::Done, ActionView::Succeed(updated_message())),
        (SyncState::Updating, EventView::Failed(_)) => (SyncState::Removing, ActionView::RemoveDir),
        (SyncState::Removing, EventView::Succeeded) => (SyncState::Cloning, ActionView::Clone),
        (SyncState::Removing, EventView::Failed(m)) => (SyncState::Failed, ActionView::Fail(m)),
        (SyncState::Cloning, EventView::Succeeded) => (SyncState::CheckingClone, ActionView::CheckRepo),
        (SyncState::Cloning, EventView::Failed(m)) => (SyncState::Failed, ActionView::Fail(m)),
        (SyncState::CheckingClone, EventView::Checked(true)) => (SyncState::CheckingOut, ActionView::Checkout(branch_ref)),
        (SyncState::CheckingClone, EventView::Checked(false)) => (SyncState::Failed, ActionView::Fail(invalid_clone_message())),
        (SyncState::CheckingOut, EventView::Succeeded) => (SyncState::Done, ActionView::Succeed(cloned_message())),
        (SyncState::CheckingOut, EventView::Failed(m)) => (SyncState::Failed, ActionView::Fail(m)),
        _ => (SyncState::Failed, ActionView::Fail(unexpected_message())),
    }
}

/// The state reached from `s` after the reports `events`, in order.
pub open spec fn state_after(s: SyncState, events: Seq<EventView>, branch_ref: Seq<char>) -> SyncState
    decreases events.len(),
{
    if events.len() == 0 {
        s
    } else {
        state_after(next(s, events[0], branch_ref).0, events.drop_first(), branch_ref)
    }
}

/// The actions issued from `s` on the reports `events`, one per report.
pub open spec fn actions_after(s: SyncState, events: Seq<EventView>, branch_ref: Seq<char>) -> Seq<ActionView>
    decreases events.len(),
{
    if events.len() == 0 {
        Seq::empty()
    } else {
        let (t, a) = next(s, events[0], branch_ref);
        seq![a] + actions_after(t, events.drop_first(), branch_ref)
    }
}

/// A synchronization run over one descriptor.
pub struct SyncEngine {
    pub state: SyncState,
    pub branch_ref: String,
}

impl SyncEngine {
    /// Starts a run for `repo`: the first action is always to validate the path.
    pub fn new(repo: &Repo) -> (r: (SyncEngine, Action))
        ensures
            r.0.state == SyncState::Validating,
            r.0.branch_ref@ == branch_ref_of(effective_branch(Some(repo.branch@))),
            r.1@ == ActionView::CheckRepo,
    {
        (SyncEngine { state: SyncState::Validating, branch_ref: repo.branch_ref() }, Action::CheckRepo)
    }

    /// Whether the run has ended, successfully or not.
    pub fn is_finished(&self) -> (r: bool)
        ensures
            r == (self.state == SyncState::Done || self.state == SyncState::Failed),
    {
        match self.state {
            SyncState::Done | SyncState::Failed => true,
            _ => false,
        }
    }

    /// Takes the report of the last piece of outside work and says what to do next.
    pub fn step(&mut self, event: Event) -> (r: Action)
        ensures
            final(self).branch_ref@ == old(self).branch_ref@,
            (final(self).state, r@) == next(old(self).state, event@, old(self).branch_ref@),
    {
        let (s, a) = match (self.state, event) {
            (SyncState::Validating, Event::Checked(false)) => (SyncState::Cloning, Action::Clone),
            (SyncState::Validating, Event::Checked(true)) => (SyncState::Updating, Action::Update(self.branch_ref.clone())),
            (SyncState::Updating, Event::Succeeded) => (SyncState::Done, Action::Succeed(updated_text())),
            (SyncState::Updating, Event::Failed(_)) => (SyncState::Removing, Action::RemoveDir),
            (SyncState::Removing, Event::Succeeded) => (SyncState::Cloning, Action::Clone),
            (SyncState::Removing, Event::Failed(m)) => (SyncState::Failed, Action::Fail(m)),
            (SyncState::Cloning, Event::Succeeded) => (SyncState::CheckingClone, Action::CheckRepo),
            (SyncState::Cloning, Event::Failed(m)) => (SyncState::Failed, Action::Fail(m)),
            (SyncState::CheckingClone, Event::Checked(true)) => (SyncState::CheckingOut, Action::Checkout(self.branch_ref.clone())),
            (SyncState::CheckingClone, Event::Checked(false)) => (SyncState::Failed, Action::Fail(invalid_clone_text())),
            (SyncState::CheckingOut, Event::Succeeded) => (SyncState::Done, Action::Succeed(cloned_text())),
            (SyncState::CheckingOut, Event::Failed(m)) => (SyncState::Failed, Action::Fail(m)),
            _ => (SyncState::Failed, Action::Fail(unexpected_text())),
        };
        self.state = s;
        a
    }
}

/// The repository validator's answer: a usable repository is a path that
/// exists and holds a `.git` metadata directory.
pub open spec fn repo_valid(path_exists: bool, metadata_is_dir: bool) -> bool {
    path_exists && metadata_is_dir
}

/// Decides whether a local path holds a usable repository, from what the
/// filesystem reported about the path and its `.git` subdirectory. This is a
/// structural check only; a damaged metadata directory still counts as valid.
pub fn is_valid_git_repo(path_exists: bool, metadata_is_dir: bool) -> (r: bool)
    ensures
        r == repo_valid(path_exists, metadata_is_dir),
{
    if !path_exists {
        return false;
    }
    metadata_is_dir
}

/// States from which a run can no longer reach an update.
pub open spec fn past_update_choice(s: SyncState) -> bool {
    match s {
        SyncState::Cloning | SyncState::CheckingClone | SyncState::CheckingOut
        | SyncState::Done | SyncState::Failed => true,
        _ => false,
    }
}

pub open spec fn has_no_update(actions: Seq<ActionView>) -> bool {
    forall|i: int| 0 <= i < actions.len() ==> !(#[trigger] actions[i] is Update)
}

proof fn lemma_no_update_after_clone_choice(s: SyncState, events: Seq<EventView>, branch_ref: Seq<char>)
    requires
        past_update_choice(s),
    ensures
        has_no_update(actions_after(s, events, branch_ref)),
    decreases events.len(),
{
    if events.len() > 0 {
        let (t, a) = next(s, events[0], branch_ref);
        lemma_no_update_after_clone_choice(t, events.drop_first(), branch_ref);
        let rest = actions_after(t, events.drop_first(), branch_ref);
        let all = actions_after(s, events, branch_ref);
        assert(all == seq![a] + rest);
        assert forall|i: int| 0 <= i < all.len() implies !(#[trigger] all[i] is Update) by {
            if i > 0 {
                assert(all[i] == rest[i - 1]);
            }
        }
    }
}

/// A path that does not exist is never updated: the run answers the
/// validator's answer with a clone, and whatever is reported afterwards, no
/// update is ever issued.
pub proof fn lemma_missing_path_clones(
    metadata_is_dir: bool,
    later: Seq<EventView>,
    branch_ref: Seq<char>,
)
    ensures
        ({
            let events = seq![EventView::Checked(repo_valid(false, metadata_is_dir))] + later;
            &&& next(SyncState::Validating, events[0], branch_ref) == (SyncState::Cloning, ActionView::Clone)
            &&& has_no_update(actions_after(SyncState::Validating, events, branch_ref))
        }),
{
    let events = seq![EventView::Checked(repo_valid(false, metadata_is_dir))] + later;
    assert(events.drop_first() == later);
    lemma_no_update_after_clone_choice(SyncState::Cloning, later, branch_ref);
    let all = actions_after(SyncState::Validating, events, branch_ref);
    let rest = actions_after(SyncState::Cloning, later, branch_ref);
    assert(all == seq![ActionView::Clone] + rest);
    assert forall|i: int| 0 <= i < all.len() implies !(#[trigger] all[i] is Update) by {
        if i > 0 {
            assert(all[i] == rest[i - 1]);
        }
    }
}

/// A valid path is updated; when that update fails, for any reason, the
/// directory is removed and, once removed, cloned afresh.
pub proof fn lemma_failed_update_recovers(message: Seq<char>, branch_ref: Seq<char>)
    ensures
        next(SyncState::Validating, EventView::Checked(true), branch_ref)
            == (SyncState::Updating, ActionView::Update(branch_ref)),
        next(SyncState::Updating, EventView::Failed(message), branch_ref)
            == (SyncState::Removing, ActionView::RemoveDir),
        next(SyncState::Removing, EventView::Succeeded, branch_ref)
            == (SyncState::Cloning, ActionView::Clone),
        actions_after(
            SyncState::Validating,
            seq![EventView::Checked(true), EventView::Failed(message), EventView::Succeeded],
            branch_ref,
        ) == seq![ActionView::Update(branch_ref), ActionView::RemoveDir, ActionView::Clone],
{
    let evs = seq![EventView::Checked(true), EventView::Failed(message), EventView::Succeeded];
    assert(evs.drop_first() == seq![EventView::Failed(message), EventView::Succeeded]);
    assert(evs.drop_first().drop_first() == seq![EventView::Succeeded]);
    assert(evs.drop_first().drop_first().drop_first() == Seq::<EventView>::empty());
    assert(actions_after(SyncState::Cloning, Seq::<EventView>::empty(), branch_ref) == Seq::<ActionView>::empty());
    assert(actions_after(SyncState::Removing, seq![EventView::Succeeded], branch_ref)
        =~= seq![ActionView::Clone]);
    assert(actions_after(SyncState::Updating, evs.drop_first(), branch_ref)
        =~= seq![ActionView::RemoveDir, ActionView::Clone]);
    assert(actions_after(SyncState::Validating, evs, branch_ref)
        =~= seq![ActionView::Update(branch_ref), ActionView::RemoveDir, ActionView::Clone]);
}

/// A clone is reported successful only after the validator, run on the freshly
/// cloned path, found a usable repository there.
pub proof fn lemma_clone_success_follows_valid_check(s: SyncState, e: EventView, branch_ref: Seq<char>)
    ensures
        next(s, e, branch_ref).1 == ActionView::Succeed(cloned_message()) ==> s == SyncState::CheckingOut,
        next(s, e, branch_ref).0 == SyncState::CheckingOut
            ==> s == SyncState::CheckingClone && e == EventView::Checked(true),
{
    reveal_strlit("Repository updated successfully.");
    reveal_strlit("Repository cloned successfully.");
    reveal_strlit("Failed to create a valid Git repository");
    reveal_strlit("Unexpected event for the synchronization state");
    assert(updated_message()[11] != cloned_message()[11]);
    assert(invalid_clone_message()[0] != cloned_message()[0]);
    assert(unexpected_message()[0] != cloned_message()[0]);
}

fn updated_text() -> (r: String)
    ensures
        r@ == updated_message(),
{
    String::from_str("Repository updated successfully.")
}

fn cloned_text() -> (r: String)
    ensures
        r@ == cloned_message(),
{
    String::from_str("Repository cloned successfully.")
}

fn invalid_clone_text() -> (r: String)
    ensures
        r@ == invalid_clone_message(),
{
    String::from_str("Failed to create a valid Git repository")
}

fn unexpected_text() -> (r: String)
    ensures
        r@ == unexpected_message(),
{
    String::from_str("Unexpected event for the synchronization state")
}

} // verus!
