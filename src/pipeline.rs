//! The deployment pipeline as a state machine.
//!
//! A driver creates a [`Deployment`], feeds it [`Event::Begin`], and then
//! repeatedly performs the [`Action`] it gets back and reports the outcome as
//! the next [`Event`], until the action is [`Action::Finish`]. Every decision of
//! the pipeline (checkout or reuse, update, path security, tool invocation,
//! cleanup, and which result the run ends with) is taken here.

use vstd::prelude::*;
use crate::config::{ReleaseConfig, Resource};
use crate::paths::{check_relative, is_within, join, joined, stays_inside, within};

verus! {

/// A git operation of the checkout.
#[derive(Debug, Clone, Copy, PartialEq, Eq, Structural)]
pub enum GitStep {
    Clone,
    Fetch,
    Merge,
}

/// Why a run failed.
#[derive(Debug)]
pub enum DeployError {
    /// A git operation exited with a nonzero code.
    CheckoutFailed { step: GitStep, code: i32 },
    /// The working copy has uncommitted changes, so it is not updated.
    DirtyRepository,
    /// The resource path `path` leads outside its sandbox `root`.
    PathTraversal { path: String, root: String },
    /// The deployment tool exited with a nonzero code.
    ToolFailed { tool: String, code: i32 },
    /// An outside operation could not be performed.
    Io(String),
    /// The event does not answer the action that was asked for.
    UnexpectedEvent,
}

/// Where the run stands: what it waits for.
#[derive(Debug, Clone, Copy, PartialEq, Eq, Structural)]
pub enum Phase {
    Start,
    CheckingMarker,
    Cloning,
    CheckingStatus,
    Fetching,
    Merging,
    Resolving(usize),
    Copying(usize),
    RunningTool,
    Removing,
    Done,
}

/// What happened outside, in answer to the last action.
pub enum Event {
    /// Start the run.
    Begin,
    /// Whether the working directory holds a `.git` entry.
    Marker(bool),
    /// A git operation or the tool exited with this code.
    Exited(i32),
    /// What `git status --porcelain` printed.
    StatusOutput(Vec<u8>),
    /// How the resource's paths resolve: for each of the source and the
    /// destination, the canonical form of its nearest existing ancestor (the
    /// path itself when it exists) and the rest of the path beyond that
    /// ancestor (empty when it exists); and the canonical sandbox roots.
    Resolved {
        source: String,
        source_rest: String,
        source_root: String,
        destination: String,
        destination_rest: String,
        destination_root: String,
    },
    /// The resource was copied.
    Copied,
    /// The working directory was removed.
    Removed,
    /// The action could not be performed.
    Failed(String),
}

/// What the driver is to do next.
#[derive(Debug)]
pub enum Action {
    /// Report whether `target/.git` exists.
    CheckMarker,
    /// `git clone --branch <branch> --progress <repository> <target>`.
    Clone,
    /// `git status --porcelain` in the target, capturing its output.
    Status,
    /// `git fetch --progress origin <branch>` in the target.
    Fetch,
    /// `git merge origin/<branch>` in the target.
    Merge,
    /// Canonicalize the paths of resource `i` and their sandbox roots.
    Resolve(usize),
    /// Copy resource `i`, creating missing parent directories of its destination.
    Copy(usize),
    /// Run the tool with its arguments in the target.
    RunTool,
    /// Remove the target recursively.
    Remove,
    /// The run is over, with this result.
    Finish(Result<(), DeployError>),
}

/// One run of the pipeline.
pub struct Deployment {
    pub release: ReleaseConfig,
    /// The sandbox that resource files are read from.
    pub resources_dir: String,
    /// The working directory.
    pub target: String,
    /// Keep the working directory of a clean-mode run.
    pub keep: bool,
    pub phase: Phase,
    /// The tool's exit code, once it has run.
    pub tool_code: Option<i32>,
    /// Why the tool could not be started, if it could not.
    pub tool_failure: Option<String>,
    /// The working directory was removed.
    pub removed: bool,
}

/// A path that resolves to the existing ancestor `ancestor` (canonical)
/// followed by the not yet existing rest `rest` lies inside the canonical
/// root `root`: the ancestor does, and the rest does not climb above it.
pub open spec fn resolves_within(ancestor: Seq<char>, rest: Seq<char>, root: Seq<char>) -> bool {
    within(ancestor, root) && stays_inside(rest)
}

/// Destination of a resource, relative to the working directory.
pub open spec fn destination_of(r: Resource) -> Seq<char> {
    match r.copy_path {
        Some(c) => c@,
        None => r.file@,
    }
}

/// A git operation that may reach the network or change history.
pub open spec fn is_git_action(a: Action) -> bool {
    a is Clone || a is Status || a is Fetch || a is Merge
}

/// The checkout is behind the run.
pub open spec fn past_checkout(p: Phase) -> bool {
    p is Resolving || p is Copying || p is RunningTool || p is Removing || p is Done
}

impl Deployment {
    /// Path that resource `i` is read from.
    pub open spec fn source_of(&self, i: int) -> Seq<char> {
        joined(self.resources_dir@, self.release.resources@[i].file@)
    }

    /// Path that resource `i` is written to.
    pub open spec fn destination_path_of(&self, i: int) -> Seq<char> {
        joined(self.target@, destination_of(self.release.resources@[i]))
    }

    /// The same run: everything but the phase and the progress records agree.
    pub open spec fn same_setup(&self, other: &Deployment) -> bool {
        self.release == other.release && self.resources_dir == other.resources_dir
            && self.target == other.target && self.keep == other.keep
    }

    /// The run's progress records (tool outcome, removal) agree.
    pub open spec fn same_progress(&self, other: &Deployment) -> bool {
        self.tool_code == other.tool_code && self.tool_failure == other.tool_failure
            && self.removed == other.removed
    }

    /// The result the run ends with: the tool's failure, if it could not be
    /// started or exited with a nonzero code, else success.
    pub open spec fn is_result(&self, r: Result<(), DeployError>) -> bool {
        if self.tool_failure is Some {
            r matches Err(DeployError::Io(m)) && m@ == self.tool_failure->Some_0@
        } else {
            match self.tool_code {
            Some(c) => if c != 0 {
                (r matches Err(DeployError::ToolFailed { tool, code }) && code == c && tool@
                    == self.release.tool.text())
            } else {
                r is Ok
            },
            None => r is Ok,
        }
        }
    }

    /// The run is over with its result.
    pub open spec fn finishes(&self, a: Action) -> bool {
        self.phase == Phase::Done && (a matches Action::Finish(r) && self.is_result(r))
    }

    /// The run ends refusing `path`, which leaves its sandbox `root`.
    pub open spec fn traversal_abort(&self, path: Seq<char>, root: Seq<char>, a: Action) -> bool {
        self.phase == Phase::Done && (a matches Action::Finish(
            Err(DeployError::PathTraversal { path: p, root: q }),
        ) && p@ == path && q@ == root)
    }

    /// Cleanup begins: remove a clean-mode directory unless it is kept; else finish.
    pub open spec fn enters_cleanup(&self, a: Action) -> bool {
        if self.release.clean && !self.keep {
            self.phase == Phase::Removing && a == Action::Remove
        } else {
            self.finishes(a)
        }
    }

    /// The tool stage begins: run the tool, or go straight to cleanup when none is configured.
    pub open spec fn enters_tool(&self, a: Action) -> bool {
        if self.release.tool.spec_is_empty() {
            self.enters_cleanup(a)
        } else {
            self.phase == Phase::RunningTool && a == Action::RunTool
        }
    }

    /// Resource `i` is taken up: resolve its paths; past the last resource the
    /// tool stage begins.
    pub open spec fn enters_resource(&self, i: int, a: Action) -> bool {
        if i < self.release.resources@.len() {
            self.phase == Phase::Resolving(i as usize) && a == Action::Resolve(i as usize)
        } else {
            self.enters_tool(a)
        }
    }

    /// The run ends on an event that answers no pending action.
    pub open spec fn unexpected(&self, a: Action) -> bool {
        self.phase == Phase::Done && a matches Action::Finish(Err(DeployError::UnexpectedEvent))
    }

    /// The run ends because an outside operation failed with `msg`.
    pub open spec fn io_abort(&self, msg: Seq<char>, a: Action) -> bool {
        self.phase == Phase::Done && (a matches Action::Finish(Err(DeployError::Io(m))) && m@ == msg)
    }

    /// The run ends because git step `step` exited with `code`.
    pub open spec fn git_abort(&self, step: GitStep, code: i32, a: Action) -> bool {
        self.phase == Phase::Done && (a matches Action::Finish(
            Err(DeployError::CheckoutFailed { step: s, code: c }),
        ) && s == step && c == code)
    }

    /// The checkout is complete: update a fresh clone when both `clean` and
    /// `merge` are set, else take up the first resource.
    pub open spec fn after_clone(&self, a: Action) -> bool {
        if self.release.clean && self.release.merge {
            self.phase == Phase::CheckingStatus && a == Action::Status
        } else {
            self.enters_resource(0, a)
        }
    }
}

/// One step of the pipeline: in state `o`, event `e` leads to state `n` and action `a`.
pub open spec fn transition(o: Deployment, e: Event, n: Deployment, a: Action) -> bool {
    match o.phase {
        Phase::Start => match e {
            Event::Begin => if o.release.clean {
                n.phase == Phase::Cloning && a == Action::Clone
            } else {
                n.phase == Phase::CheckingMarker && a == Action::CheckMarker
            },
            _ => n.unexpected(a),
        },
        Phase::CheckingMarker => match e {
            Event::Marker(found) => if !found {
                n.phase == Phase::Cloning && a == Action::Clone
            } else if o.release.merge {
                n.phase == Phase::CheckingStatus && a == Action::Status
            } else {
                n.enters_resource(0, a)
            },
            Event::Failed(msg) => n.io_abort(msg@, a),
            _ => n.unexpected(a),
        },
        Phase::Cloning => match e {
            Event::Exited(code) => if code == 0 {
                n.after_clone(a)
            } else {
                n.git_abort(GitStep::Clone, code, a)
            },
            Event::Failed(msg) => n.io_abort(msg@, a),
            _ => n.unexpected(a),
        },
        Phase::CheckingStatus => match e {
            Event::StatusOutput(out) => if out@.len() > 0 {
                n.phase == Phase::Done && a matches Action::Finish(Err(DeployError::DirtyRepository))
            } else {
                n.phase == Phase::Fetching && a == Action::Fetch
            },
            Event::Failed(msg) => n.io_abort(msg@, a),
            _ => n.unexpected(a),
        },
        Phase::Fetching => match e {
            Event::Exited(code) => if code == 0 {
                n.phase == Phase::Merging && a == Action::Merge
            } else {
                n.git_abort(GitStep::Fetch, code, a)
            },
            Event::Failed(msg) => n.io_abort(msg@, a),
            _ => n.unexpected(a),
        },
        Phase::Merging => match e {
            Event::Exited(code) => if code == 0 {
                n.enters_resource(0, a)
            } else {
                n.git_abort(GitStep::Merge, code, a)
            },
            Event::Failed(msg) => n.io_abort(msg@, a),
            _ => n.unexpected(a),
        },
        Phase::Resolving(i) => if i >= o.release.resources@.len() {
            n.unexpected(a)
        } else {
            match e {
                Event::Resolved {
                    source,
                    source_rest,
                    source_root,
                    destination,
                    destination_rest,
                    destination_root,
                } => if !resolves_within(source@, source_rest@, source_root@) {
                    n.traversal_abort(o.source_of(i as int), o.resources_dir@, a)
                } else if !resolves_within(destination@, destination_rest@, destination_root@) {
                    n.traversal_abort(o.destination_path_of(i as int), o.target@, a)
                } else {
                    n.phase == Phase::Copying(i) && a == Action::Copy(i)
                },
                Event::Failed(msg) => n.io_abort(msg@, a),
                _ => n.unexpected(a),
            }
        },
        Phase::Copying(i) => if i >= o.release.resources@.len() {
            n.unexpected(a)
        } else {
            match e {
                Event::Copied => n.enters_resource(i + 1, a),
                Event::Failed(msg) => n.io_abort(msg@, a),
                _ => n.unexpected(a),
            }
        },
        Phase::RunningTool => match e {
            Event::Exited(code) => n.tool_code == Some(code) && n.tool_failure == o.tool_failure
                && n.removed == o.removed && n.enters_cleanup(a),
            Event::Failed(msg) => n.tool_code == o.tool_code && (n.tool_failure matches Some(m)
                && m@ == msg@) && n.removed == o.removed && n.enters_cleanup(a),
            _ => n.unexpected(a),
        },
        Phase::Removing => match e {
            Event::Removed => n.removed && n.finishes(a),
            Event::Failed(_) => !n.removed && n.finishes(a),
            _ => n.unexpected(a),
        },
        Phase::Done => n.unexpected(a),
    }
}

/// A resource is copied only after its source and its destination have both
/// been found to resolve inside their sandboxes.
pub proof fn lemma_copy_stays_in_sandboxes(o: Deployment, e: Event, n: Deployment, a: Action)
    requires
        transition(o, e, n, a),
        a is Copy,
    ensures
        a->Copy_0 < o.release.resources@.len(),
        o.phase == Phase::Resolving(a->Copy_0),
        e matches Event::Resolved {
            source,
            source_rest,
            source_root,
            destination,
            destination_rest,
            destination_root,
        } && resolves_within(source@, source_rest@, source_root@) && resolves_within(
            destination@,
            destination_rest@,
            destination_root@,
        ),
{
}

/// A resource whose source or destination resolves outside its sandbox ends
/// the run with a path-traversal error; it is not copied.
pub proof fn lemma_escaping_path_refused(o: Deployment, e: Event, n: Deployment, a: Action)
    requires
        o.phase is Resolving,
        o.phase->Resolving_0 < o.release.resources@.len(),
        e matches Event::Resolved {
            source,
            source_rest,
            source_root,
            destination,
            destination_rest,
            destination_root,
        } && !(resolves_within(source@, source_rest@, source_root@) && resolves_within(
            destination@,
            destination_rest@,
            destination_root@,
        )),
        transition(o, e, n, a),
    ensures
        n.phase == Phase::Done,
        a matches Action::Finish(Err(DeployError::PathTraversal { .. })),
{
}

/// In a clean run whose directory is not kept, whatever the tool's outcome
/// (an exit code, or a failure to start it), the next step removes the
/// working directory.
pub proof fn lemma_tool_outcome_leads_to_cleanup(o: Deployment, e: Event, n: Deployment, a: Action)
    requires
        o.phase == Phase::RunningTool,
        o.release.clean,
        !o.keep,
        e is Exited || e is Failed,
        transition(o, e, n, a),
        n.same_setup(&o),
    ensures
        n.phase == Phase::Removing,
        a == Action::Remove,
{
}

/// Reusing an existing working copy without `merge` takes the run past the
/// checkout with no git operation.
pub proof fn lemma_reuse_without_merge_offline(o: Deployment, n: Deployment, a: Action)
    requires
        o.phase == Phase::CheckingMarker,
        !o.release.merge,
        transition(o, Event::Marker(true), n, a),
        n.same_setup(&o),
    ensures
        past_checkout(n.phase),
        !is_git_action(a),
{
}

/// `states`, `events` and `actions` form a run: each event leads from one
/// state to the next, with the action at the same position, keeping the setup.
pub open spec fn is_run(states: Seq<Deployment>, events: Seq<Event>, actions: Seq<Action>) -> bool {
    states.len() == events.len() + 1 && actions.len() == events.len() && forall|k: int|
        0 <= k < events.len() ==> transition(states[k], events[k], states[k + 1], #[trigger] actions[k])
            && states[k + 1].same_setup(&states[k])
}

proof fn lemma_reuse_run_stays_past_checkout(
    states: Seq<Deployment>,
    events: Seq<Event>,
    actions: Seq<Action>,
    k: int,
)
    requires
        is_run(states, events, actions),
        1 <= k <= events.len(),
        states[0].phase == Phase::CheckingMarker,
        !states[0].release.merge,
        events[0] == Event::Marker(true),
    ensures
        past_checkout(states[k].phase),
    decreases k,
{
    let _ = actions[k - 1];
    if k == 1 {
        lemma_reuse_without_merge_offline(states[0], states[1], actions[0]);
    } else {
        lemma_reuse_run_stays_past_checkout(states, events, actions, k - 1);
        lemma_no_git_past_checkout(states[k - 1], events[k - 1], states[k], actions[k - 1]);
    }
}

/// A whole run that reuses an existing working copy without `merge`, from the
/// answer that the repository marker is present on, never asks for a git
/// operation: no clone, status, fetch or merge.
pub proof fn lemma_reuse_run_offline(states: Seq<Deployment>, events: Seq<Event>, actions: Seq<Action>)
    requires
        is_run(states, events, actions),
        events.len() > 0,
        states[0].phase == Phase::CheckingMarker,
        !states[0].release.merge,
        events[0] == Event::Marker(true),
    ensures
        forall|k: int| 0 <= k < actions.len() ==> !is_git_action(#[trigger] actions[k]),
{
    assert forall|k: int| 0 <= k < actions.len() implies !is_git_action(#[trigger] actions[k]) by {
        if k == 0 {
            lemma_reuse_without_merge_offline(states[0], states[1], actions[0]);
        } else {
            lemma_reuse_run_stays_past_checkout(states, events, actions, k);
            lemma_no_git_past_checkout(states[k], events[k], states[k + 1], actions[k]);
        }
    }
}

/// Once the checkout is behind a run, no step asks for a git operation or
/// returns to the checkout.
pub proof fn lemma_no_git_past_checkout(o: Deployment, e: Event, n: Deployment, a: Action)
    requires
        past_checkout(o.phase),
        transition(o, e, n, a),
        n.same_setup(&o),
    ensures
        past_checkout(n.phase),
        !is_git_action(a),
{
}

/// A working copy with uncommitted changes ends the update with
/// `DirtyRepository`; nothing is fetched.
pub proof fn lemma_dirty_tree_blocks_update(o: Deployment, e: Event, n: Deployment, a: Action)
    requires
        o.phase == Phase::CheckingStatus,
        e matches Event::StatusOutput(out) && out@.len() > 0,
        transition(o, e, n, a),
    ensures
        n.phase == Phase::Done,
        a matches Action::Finish(Err(DeployError::DirtyRepository)),
{
}

/// A fetch is asked for only right after a status check that reported no change.
pub proof fn lemma_fetch_needs_clean_tree(o: Deployment, e: Event, n: Deployment, a: Action)
    requires
        transition(o, e, n, a),
        a == Action::Fetch,
    ensures
        o.phase == Phase::CheckingStatus,
        e matches Event::StatusOutput(out) && out@.len() == 0,
{
}

/// With no tool configured, no step runs a tool, and a run that finishes
/// without a tool exit code finishes with success.
pub proof fn lemma_empty_tool_never_runs(o: Deployment, e: Event, n: Deployment, a: Action)
    requires
        o.release.tool.spec_is_empty(),
        o.tool_code is None,
        o.tool_failure is None,
        o.phase != Phase::RunningTool,
        transition(o, e, n, a),
        n.same_setup(&o),
        n.tool_code == o.tool_code,
        n.tool_failure == o.tool_failure,
    ensures
        a != Action::RunTool,
        n.phase != Phase::RunningTool,
        n.finishes(a) ==> a matches Action::Finish(Ok(_)),
{
}

impl Deployment {
    /// A run of the validated `release` in working directory `target`,
    /// reading resources from the `resources` directory under `config_dir`.
    pub fn new(release: ReleaseConfig, config_dir: &str, target: String, keep: bool) -> (r: Self)
        requires
            release.is_valid(),
        ensures
            r.release == release,
            r.resources_dir@ == joined(config_dir@, "resources"@),
            r.target == target,
            r.keep == keep,
            r.phase == Phase::Start,
            r.tool_code is None,
            r.tool_failure is None,
            !r.removed,
    {
        let resources_dir = join(config_dir, "resources");
        Deployment {
            release,
            resources_dir,
            target,
            keep,
            phase: Phase::Start,
            tool_code: None,
            tool_failure: None,
            removed: false,
        }
    }

    /// Path that resource `i` is read from.
    pub fn source_path(&self, i: usize) -> (r: String)
        requires
            i < self.release.resources@.len(),
        ensures
            r@ == self.source_of(i as int),
    {
        join(self.resources_dir.as_str(), self.release.resources[i].file.as_str())
    }

    /// Path that resource `i` is written to.
    pub fn destination_path(&self, i: usize) -> (r: String)
        requires
            i < self.release.resources@.len(),
        ensures
            r@ == self.destination_path_of(i as int),
    {
        let res = &self.release.resources[i];
        let rel: &String = match &res.copy_path {
            Some(c) => c,
            None => &res.file,
        };
        join(self.target.as_str(), rel.as_str())
    }

    fn unexpected_event(&mut self) -> (a: Action)
        ensures
            final(self).unexpected(a),
            final(self).same_setup(old(self)),
            final(self).same_progress(old(self)),
    {
        self.phase = Phase::Done;
        Action::Finish(Err(DeployError::UnexpectedEvent))
    }

    fn abort(&mut self, e: DeployError) -> (a: Action)
        ensures
            final(self).phase == Phase::Done,
            a == Action::Finish(Err(e)),
            final(self).same_setup(old(self)),
            final(self).same_progress(old(self)),
    {
        self.phase = Phase::Done;
        Action::Finish(Err(e))
    }

    fn finish(&mut self) -> (a: Action)
        ensures
            final(self).finishes(a),
            final(self).same_setup(old(self)),
            final(self).same_progress(old(self)),
    {
        self.phase = Phase::Done;
        if let Some(msg) = &self.tool_failure {
            return Action::Finish(Err(DeployError::Io(msg.clone())));
        }
        match self.tool_code {
            Some(code) => if code != 0 {
                Action::Finish(Err(DeployError::ToolFailed { tool: self.release.tool.describe(), code }))
            } else {
                Action::Finish(Ok(()))
            },
            None => Action::Finish(Ok(())),
        }
    }

    fn enter_cleanup(&mut self) -> (a: Action)
        ensures
            final(self).enters_cleanup(a),
            final(self).same_setup(old(self)),
            final(self).same_progress(old(self)),
    {
        if self.release.clean && !self.keep {
            self.phase = Phase::Removing;
            Action::Remove
        } else {
            self.finish()
        }
    }

    fn enter_tool(&mut self) -> (a: Action)
        ensures
            final(self).enters_tool(a),
            final(self).same_setup(old(self)),
            final(self).same_progress(old(self)),
    {
        if self.release.tool.is_empty() {
            self.enter_cleanup()
        } else {
            self.phase = Phase::RunningTool;
            Action::RunTool
        }
    }

    fn enter_resource(&mut self, i: usize) -> (a: Action)
        requires
            i <= old(self).release.resources@.len(),
        ensures
            final(self).enters_resource(i as int, a),
            final(self).same_setup(old(self)),
            final(self).same_progress(old(self)),
    {
        if i == self.release.resources.len() {
            return self.enter_tool();
        }
        self.phase = Phase::Resolving(i);
        Action::Resolve(i)
    }

    fn after_clone_step(&mut self) -> (a: Action)
        ensures
            final(self).after_clone(a),
            final(self).same_setup(old(self)),
            final(self).same_progress(old(self)),
    {
        if self.release.clean && self.release.merge {
            self.phase = Phase::CheckingStatus;
            Action::Status
        } else {
            self.enter_resource(0)
        }
    }

    /// Takes the outcome of the last action and decides what comes next.
    pub fn step(&mut self, event: Event) -> (a: Action)
        ensures
            transition(*old(self), event, *final(self), a),
            final(self).same_setup(old(self)),
            old(self).phase != Phase::RunningTool ==> final(self).tool_code == old(self).tool_code
                && final(self).tool_failure == old(self).tool_failure,
            old(self).phase != Phase::Removing ==> final(self).removed == old(self).removed,
    {
        match self.phase {
            Phase::Start => match event {
                Event::Begin => if self.release.clean {
                    self.phase = Phase::Cloning;
                    Action::Clone
                } else {
                    self.phase = Phase::CheckingMarker;
                    Action::CheckMarker
                },
                _ => self.unexpected_event(),
            },
            Phase::CheckingMarker => match event {
                Event::Marker(found) => if !found {
                    self.phase = Phase::Cloning;
                    Action::Clone
                } else if self.release.merge {
                    self.phase = Phase::CheckingStatus;
                    Action::Status
                } else {
                    self.enter_resource(0)
                },
                Event::Failed(msg) => self.abort(DeployError::Io(msg)),
                _ => self.unexpected_event(),
            },
            Phase::Cloning => match event {
                Event::Exited(code) => if code == 0 {
                    self.after_clone_step()
                } else {
                    self.abort(DeployError::CheckoutFailed { step: GitStep::Clone, code })
                },
                Event::Failed(msg) => self.abort(DeployError::Io(msg)),
                _ => self.unexpected_event(),
            },
            Phase::CheckingStatus => match event {
                Event::StatusOutput(out) => if out.len() > 0 {
                    self.abort(DeployError::DirtyRepository)
                } else {
                    self.phase = Phase::Fetching;
                    Action::Fetch
                },
                Event::Failed(msg) => self.abort(DeployError::Io(msg)),
                _ => self.unexpected_event(),
            },
            Phase::Fetching => match event {
                Event::Exited(code) => if code == 0 {
                    self.phase = Phase::Merging;
                    Action::Merge
                } else {
                    self.abort(DeployError::CheckoutFailed { step: GitStep::Fetch, code })
                },
                Event::Failed(msg) => self.abort(DeployError::Io(msg)),
                _ => self.unexpected_event(),
            },
            Phase::Merging => match event {
                Event::Exited(code) => if code == 0 {
                    self.enter_resource(0)
                } else {
                    self.abort(DeployError::CheckoutFailed { step: GitStep::Merge, code })
                },
                Event::Failed(msg) => self.abort(DeployError::Io(msg)),
                _ => self.unexpected_event(),
            },
            Phase::Resolving(i) => if i >= self.release.resources.len() {
                self.unexpected_event()
            } else {
                match event {
                    Event::Resolved {
                        source,
                        source_rest,
                        source_root,
                        destination,
                        destination_rest,
                        destination_root,
                    } => {
                        if !(is_within(source.as_str(), source_root.as_str()) && check_relative(
                            source_rest.as_str(),
                        )) {
                            let path = self.source_path(i);
                            let root = self.resources_dir.clone();
                            self.abort(DeployError::PathTraversal { path, root })
                        } else if !(is_within(destination.as_str(), destination_root.as_str())
                            && check_relative(destination_rest.as_str())) {
                            let path = self.destination_path(i);
                            let root = self.target.clone();
                            self.abort(DeployError::PathTraversal { path, root })
                        } else {
                            self.phase = Phase::Copying(i);
                            Action::Copy(i)
                        }
                    },
                    Event::Failed(msg) => self.abort(DeployError::Io(msg)),
                    _ => self.unexpected_event(),
                }
            },
            Phase::Copying(i) => if i >= self.release.resources.len() {
                self.unexpected_event()
            } else {
                match event {
                    Event::Copied => self.enter_resource(i + 1),
                    Event::Failed(msg) => self.abort(DeployError::Io(msg)),
                    _ => self.unexpected_event(),
                }
            },
            Phase::RunningTool => match event {
                Event::Exited(code) => {
                    self.tool_code = Some(code);
                    self.enter_cleanup()
                },
                Event::Failed(msg) => {
                    self.tool_failure = Some(msg);
                    self.enter_cleanup()
                },
                _ => self.unexpected_event(),
            },
            Phase::Removing => match event {
                Event::Removed => {
                    self.removed = true;
                    self.finish()
                },
                Event::Failed(_) => {
                    self.removed = false;
                    self.finish()
                },
                _ => self.unexpected_event(),
            },
            Phase::Done => self.unexpected_event(),
        }
    }
}

} // verus!
