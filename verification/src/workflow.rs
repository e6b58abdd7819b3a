//! Workflow coordinator: runs the access gate and the closure watcher over
//! one access channel.
//!
//! The coordinator owns the channel for the life of the workflow. The two
//! watchers run as independent concurrent tasks in the application; their
//! events are serialized into [`Workflow::step`] calls behind a single
//! writer, and each call decides the next state and the action the
//! application must carry out. Channel closure cancels the access gate
//! cooperatively, and the channel, once closed, is never mutated again. The
//! workflow is complete only once both the access gate and the watcher have
//! finished, in whatever order.

use vstd::prelude::*;
use crate::ids::{ChannelId, GuildId, UserId};
use crate::perm::{PermissionOverride, grant_read, grant_read_spec};
use crate::provision::{AccessChannel, ChannelLifecycle};
use crate::gate::{GateState, GateModel, GateDecision, gate_init, gate_grants, gate_step};
use crate::closure::{ClosureWatcher, WatcherState, watcher_fires, watcher_done};

verus! {

/// An event one of the two watcher tasks observed and handed to the
/// coordinator.
#[derive(Clone, Copy, PartialEq, Eq, Structural, Debug)]
pub enum WorkflowEvent {
    /// A reaction-added event on the announcement message.
    GateReaction(UserId),
    /// The announcement message became unavailable; the access gate stops.
    AnnouncementRemoved,
    /// A reaction-added event on the welcome message.
    CloseReaction(UserId),
    /// The transport confirmed the delete call.
    DeleteSucceeded,
    /// The transport reported the delete call failed.
    DeleteFailed,
}

/// The one network call, if any, the application must carry out after a
/// step.
#[derive(Clone, Copy, PartialEq, Eq, Structural, Debug)]
pub enum WorkflowAction {
    /// Apply this permission override to the channel.
    GrantRead(ChannelId, PermissionOverride),
    /// Delete the channel.
    DeleteChannel(ChannelId),
    /// Nothing to do.
    Ignore,
}

/// Mathematical model of the whole workflow.
pub ghost struct WorkflowModel {
    pub channel_id: ChannelId,
    pub channel_name: Seq<char>,
    pub owner_scope: GuildId,
    pub channel_state: ChannelLifecycle,
    pub gate: GateModel,
    pub gate_cancelled: bool,
    pub watcher: WatcherState,
}

impl WorkflowModel {
    /// The coordinator's invariant: the access gate is well formed and the
    /// watcher's progress agrees with the channel's lifecycle state.
    pub open spec fn inv(self) -> bool {
        &&& self.gate.wf()
        &&& (self.watcher is Waiting ==> self.channel_state is Gating)
        &&& (self.watcher is Closing ==> self.channel_state is Closing)
        &&& (self.watcher is Closed ==> self.channel_state is Closed)
        &&& (self.watcher is Failed ==> self.channel_state is Closing)
        &&& (self.channel_state is Closed ==> self.gate_cancelled)
        &&& !(self.channel_state is Provisioning)
    }

    /// The access gate observes no further reaction events: its limit is reached or
    /// it was cancelled (announcement gone, or channel closed).
    pub open spec fn gate_active(self) -> bool {
        !self.gate_cancelled && !self.gate.finished()
    }

    /// Both tasks have finished, in whatever order: the workflow is
    /// complete.
    pub open spec fn complete(self) -> bool {
        !self.gate_active() && watcher_done(self.watcher)
    }
}

/// The workflow as started on a freshly provisioned channel: the channel
/// enters its gating state, the access gate is empty with the given limit, and the
/// watcher waits for the first close reaction.
pub open spec fn workflow_init(
    id: ChannelId,
    name: Seq<char>,
    owner: GuildId,
    limit: u32,
) -> WorkflowModel {
    WorkflowModel {
        channel_id: id,
        channel_name: name,
        owner_scope: owner,
        channel_state: ChannelLifecycle::Gating,
        gate: gate_init(limit),
        gate_cancelled: false,
        watcher: WatcherState::Waiting,
    }
}

/// The state after one event.
pub open spec fn workflow_step(m: WorkflowModel, e: WorkflowEvent) -> WorkflowModel {
    match e {
        WorkflowEvent::GateReaction(user) => if m.gate_active() {
            WorkflowModel { gate: gate_step(m.gate, user), ..m }
        } else {
            m
        },
        WorkflowEvent::AnnouncementRemoved => WorkflowModel { gate_cancelled: true, ..m },
        WorkflowEvent::CloseReaction(_) => if watcher_fires(m.watcher) {
            WorkflowModel {
                watcher: WatcherState::Closing,
                channel_state: ChannelLifecycle::Closing,
                ..m
            }
        } else {
            m
        },
        WorkflowEvent::DeleteSucceeded => if m.watcher is Closing {
            WorkflowModel {
                watcher: WatcherState::Closed,
                channel_state: ChannelLifecycle::Closed,
                gate_cancelled: true,
                ..m
            }
        } else {
            m
        },
        WorkflowEvent::DeleteFailed => if m.watcher is Closing {
            WorkflowModel { watcher: WatcherState::Failed, ..m }
        } else {
            m
        },
    }
}

/// The action one event obliges the application to carry out.
pub open spec fn workflow_action(m: WorkflowModel, e: WorkflowEvent) -> WorkflowAction {
    match e {
        WorkflowEvent::GateReaction(user) => if m.gate_active() && gate_grants(m.gate, user) {
            WorkflowAction::GrantRead(m.channel_id, grant_read_spec(user))
        } else {
            WorkflowAction::Ignore
        },
        WorkflowEvent::CloseReaction(_) => if watcher_fires(m.watcher) {
            WorkflowAction::DeleteChannel(m.channel_id)
        } else {
            WorkflowAction::Ignore
        },
        _ => WorkflowAction::Ignore,
    }
}

/// The workflow after a whole sequence of events.
pub open spec fn workflow_run(m: WorkflowModel, events: Seq<WorkflowEvent>) -> WorkflowModel
    decreases events.len(),
{
    if events.len() == 0 {
        m
    } else {
        workflow_run(workflow_step(m, events[0]), events.drop_first())
    }
}

/// How many delete calls a sequence of events obliges.
pub open spec fn workflow_delete_count(m: WorkflowModel, events: Seq<WorkflowEvent>) -> nat
    decreases events.len(),
{
    if events.len() == 0 {
        0
    } else {
        (if workflow_action(m, events[0]) is DeleteChannel {
            1nat
        } else {
            0nat
        }) + workflow_delete_count(workflow_step(m, events[0]), events.drop_first())
    }
}

/// The executable coordinator state, shared by the two watcher tasks behind
/// a single writer.
pub struct Workflow {
    pub channel: AccessChannel,
    pub gate: GateState,
    pub watcher: ClosureWatcher,
    pub gate_cancelled: bool,
}

impl View for Workflow {
    type V = WorkflowModel;

    open spec fn view(&self) -> WorkflowModel {
        WorkflowModel {
            channel_id: self.channel.id,
            channel_name: self.channel.name@,
            owner_scope: self.channel.owner_scope,
            channel_state: self.channel.state,
            gate: self.gate@,
            gate_cancelled: self.gate_cancelled,
            watcher: self.watcher@,
        }
    }
}

impl Workflow {
    /// Start the workflow on a freshly provisioned channel, with the given
    /// grant limit for the access gate.
    pub fn start(channel: AccessChannel, limit: u32) -> (w: Workflow)
        requires
            channel.state is Provisioning,
        ensures
            w@ == workflow_init(channel.id, channel.name@, channel.owner_scope, limit),
            w@.inv(),
    {
        let mut channel = channel;
        channel.state = ChannelLifecycle::Gating;
        Workflow {
            channel,
            gate: GateState::new(limit),
            watcher: ClosureWatcher::new(),
            gate_cancelled: false,
        }
    }

    /// The channel's lifecycle state.
    pub fn channel_state(&self) -> (s: ChannelLifecycle)
        ensures
            s == self@.channel_state,
    {
        self.channel.state
    }

    /// The channel's identifier.
    pub fn channel_id(&self) -> (id: ChannelId)
        ensures
            id == self@.channel_id,
    {
        self.channel.id
    }

    /// How many users the access gate has granted read access.
    pub fn granted_count(&self) -> (n: usize)
        ensures
            n == self@.gate.granted.len(),
    {
        self.gate.granted_count()
    }

    /// The access gate observes further reaction events.
    pub fn gate_active(&self) -> (r: bool)
        ensures
            r == self@.gate_active(),
    {
        !self.gate_cancelled && !self.gate.is_finished()
    }

    /// Both tasks have finished: the workflow is complete.
    pub fn is_complete(&self) -> (r: bool)
        ensures
            r == self@.complete(),
    {
        !self.gate_active() && self.watcher.is_done()
    }

    /// Consume one event and decide the action the application must carry
    /// out. Each call serializes one observed event against the shared
    /// state; the invariant is preserved, so the grant count can never
    /// exceed the limit, the delete call is issued at most once, and the
    /// channel is never mutated after it closed.
    pub fn step(&mut self, event: WorkflowEvent) -> (a: WorkflowAction)
        ensures
            final(self)@ == workflow_step(old(self)@, event),
            a == workflow_action(old(self)@, event),
            old(self)@.inv() ==> final(self)@.inv(),
    {
        match event {
            WorkflowEvent::GateReaction(user) => {
                if self.gate_active() {
                    let decision = self.gate.on_reaction(user);
                    if let GateDecision::Grant = decision {
                        WorkflowAction::GrantRead(self.channel.id, grant_read(user))
                    } else {
                        WorkflowAction::Ignore
                    }
                } else {
                    WorkflowAction::Ignore
                }
            },
            WorkflowEvent::AnnouncementRemoved => {
                self.gate_cancelled = true;
                WorkflowAction::Ignore
            },
            WorkflowEvent::CloseReaction(_) => {
                let fire = self.watcher.on_reaction();
                if fire {
                    self.channel.state = ChannelLifecycle::Closing;
                    WorkflowAction::DeleteChannel(self.channel.id)
                } else {
                    WorkflowAction::Ignore
                }
            },
            WorkflowEvent::DeleteSucceeded => {
                let closing = matches!(self.watcher.state(), WatcherState::Closing);
                self.watcher.on_delete_succeeded();
                if closing {
                    self.channel.state = ChannelLifecycle::Closed;
                    self.gate_cancelled = true;
                }
                WorkflowAction::Ignore
            },
            WorkflowEvent::DeleteFailed => {
                self.watcher.on_delete_failed();
                WorkflowAction::Ignore
            },
        }
    }
}

/// One step preserves the coordinator's invariant.
pub proof fn lemma_workflow_step_preserves_inv(m: WorkflowModel, e: WorkflowEvent)
    requires
        m.inv(),
    ensures
        workflow_step(m, e).inv(),
{
    if let WorkflowEvent::GateReaction(user) = e {
        crate::gate::lemma_gate_step_preserves_wf(m.gate, user);
    }
}

/// A whole run of events preserves the invariant; in particular the granted
/// count never exceeds the access gate's limit, under every interleaving of the two
/// tasks' events.
pub proof fn lemma_workflow_run_preserves_inv(m: WorkflowModel, events: Seq<WorkflowEvent>)
    requires
        m.inv(),
    ensures
        workflow_run(m, events).inv(),
        workflow_run(m, events).gate.granted.len() <= workflow_run(m, events).gate.limit,
        workflow_run(m, events).channel_id == m.channel_id,
        workflow_run(m, events).channel_name == m.channel_name,
    decreases events.len(),
{
    if events.len() > 0 {
        lemma_workflow_step_preserves_inv(m, events[0]);
        lemma_workflow_run_preserves_inv(workflow_step(m, events[0]), events.drop_first());
    }
}

/// A closed channel is final: no event mutates the workflow's channel again.
pub proof fn lemma_closed_channel_is_final(m: WorkflowModel, e: WorkflowEvent)
    requires
        m.inv(),
        m.channel_state is Closed,
    ensures
        workflow_step(m, e).channel_state is Closed,
        workflow_step(m, e).channel_id == m.channel_id,
        workflow_step(m, e).channel_name == m.channel_name,
        workflow_step(m, e).owner_scope == m.owner_scope,
        !(workflow_action(m, e) is DeleteChannel),
{
}

/// Over any sequence of events, a workflow whose watcher is past its waiting
/// state issues no delete call, and a fresh one issues at most one.
pub proof fn lemma_workflow_at_most_one_delete(m: WorkflowModel, events: Seq<WorkflowEvent>)
    requires
        m.inv(),
    ensures
        workflow_delete_count(m, events) <= (if m.watcher is Waiting {
            1nat
        } else {
            0nat
        }),
    decreases events.len(),
{
    if events.len() > 0 {
        lemma_workflow_step_preserves_inv(m, events[0]);
        lemma_workflow_at_most_one_delete(workflow_step(m, events[0]), events.drop_first());
    }
}

} // verus!
