use gated_channel::closure::WatcherState;
use gated_channel::ids::{ChannelId, GuildId, UserId};
use gated_channel::perm::grant_read;
use gated_channel::provision::{channel_created, plan_channel, ChannelLifecycle, ChannelRequest};
use gated_channel::workflow::{Workflow, WorkflowAction, WorkflowEvent};

fn started_workflow(name: &str, limit: u32) -> Workflow {
    let request = ChannelRequest {
        requested_name: String::from(name),
        requester: UserId { id: 1 },
        guild: Some(GuildId { id: 42 }),
    };
    let blueprint = plan_channel(request).unwrap();
    let channel = channel_created(blueprint, ChannelId { id: 500 });
    Workflow::start(channel, limit)
}

#[test]
fn scenario_guild_command_gates_three_users_and_stays_open() {
    let mut w = started_workflow("movie-night", 5);
    assert_eq!(w.channel_state(), ChannelLifecycle::Gating);
    for id in [10u64, 11, 12] {
        let user = UserId { id };
        let action = w.step(WorkflowEvent::GateReaction(user));
        assert_eq!(
            action,
            WorkflowAction::GrantRead(ChannelId { id: 500 }, grant_read(user))
        );
    }
    assert_eq!(w.granted_count(), 3);
    assert_eq!(w.channel_state(), ChannelLifecycle::Gating);
    assert!(!w.is_complete());
}

#[test]
fn scenario_direct_message_command_creates_nothing() {
    let request = ChannelRequest {
        requested_name: String::from("test"),
        requester: UserId { id: 1 },
        guild: None,
    };
    assert!(plan_channel(request).is_err());
}

#[test]
fn scenario_first_close_reaction_deletes_and_later_ones_do_not() {
    let mut w = started_workflow("movie-night", 5);
    let first = w.step(WorkflowEvent::CloseReaction(UserId { id: 10 }));
    assert_eq!(first, WorkflowAction::DeleteChannel(ChannelId { id: 500 }));
    assert_eq!(w.channel_state(), ChannelLifecycle::Closing);
    let confirmed = w.step(WorkflowEvent::DeleteSucceeded);
    assert_eq!(confirmed, WorkflowAction::Ignore);
    assert_eq!(w.channel_state(), ChannelLifecycle::Closed);
    // A second user's later reaction on the now-deleted welcome message
    // produces no further delete call.
    let second = w.step(WorkflowEvent::CloseReaction(UserId { id: 11 }));
    assert_eq!(second, WorkflowAction::Ignore);
    assert_eq!(w.channel_state(), ChannelLifecycle::Closed);
    assert!(w.is_complete());
}

#[test]
fn scenario_zero_limit_grants_nobody_and_finishes_at_once() {
    let mut w = started_workflow("movie-night", 0);
    assert!(!w.gate_active());
    let action = w.step(WorkflowEvent::GateReaction(UserId { id: 10 }));
    assert_eq!(action, WorkflowAction::Ignore);
    assert_eq!(w.granted_count(), 0);
}

#[test]
fn closing_the_channel_cancels_the_gate() {
    let mut w = started_workflow("movie-night", 5);
    w.step(WorkflowEvent::CloseReaction(UserId { id: 10 }));
    w.step(WorkflowEvent::DeleteSucceeded);
    assert!(!w.gate_active());
    let action = w.step(WorkflowEvent::GateReaction(UserId { id: 11 }));
    assert_eq!(action, WorkflowAction::Ignore);
    assert_eq!(w.granted_count(), 0);
}

#[test]
fn removed_announcement_stops_the_gate() {
    let mut w = started_workflow("movie-night", 5);
    w.step(WorkflowEvent::AnnouncementRemoved);
    assert!(!w.gate_active());
    let action = w.step(WorkflowEvent::GateReaction(UserId { id: 11 }));
    assert_eq!(action, WorkflowAction::Ignore);
}

#[test]
fn failed_delete_leaves_the_channel_closing_and_is_terminal() {
    let mut w = started_workflow("movie-night", 5);
    w.step(WorkflowEvent::CloseReaction(UserId { id: 10 }));
    let action = w.step(WorkflowEvent::DeleteFailed);
    assert_eq!(action, WorkflowAction::Ignore);
    assert_eq!(w.channel_state(), ChannelLifecycle::Closing);
    assert_eq!(w.watcher.state(), WatcherState::Failed);
    // The access gate fails independently of the watcher: it is still running.
    assert!(w.gate_active());
    assert!(!w.is_complete());
    w.step(WorkflowEvent::AnnouncementRemoved);
    assert!(w.is_complete());
}

#[test]
fn gate_limit_is_enforced_inside_the_workflow() {
    let mut w = started_workflow("movie-night", 2);
    let mut grants = 0;
    for id in [20u64, 21, 20, 22, 23] {
        let action = w.step(WorkflowEvent::GateReaction(UserId { id }));
        if let WorkflowAction::GrantRead(_, _) = action {
            grants += 1;
        }
        assert!(w.granted_count() <= 2);
    }
    assert_eq!(grants, 2);
    assert_eq!(w.granted_count(), 2);
    assert!(!w.gate_active());
}
