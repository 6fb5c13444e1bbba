//! What holds of the state machine in [`crate::transitions`], whatever the
//! events are.

use crate::action::ActionView;
use crate::action::During;
use crate::action::End;
use crate::action::Fault;
use crate::action::OnFailure;
use crate::action::OutcomeView;
use crate::gui::handoff;
use crate::gui::ClientMsg;
use crate::request::ControllerRequest;
use crate::request::EventloopTick;
use crate::resource::Resource;
use crate::service::ClientMsgView;
use crate::service::IpAddress;
use crate::service::ServerMsg;
use crate::status::StatusView;
use crate::transitions::ControllerView;
use crate::transitions::Step;
use std::time::Instant;
use tokio::sync::oneshot::Sender;
use vstd::prelude::*;

verus! {

/// One turn of the event loop: the tick, and the instant at which it is
/// handled.
pub struct Turn {
    pub tick: EventloopTick,
    pub now: Instant,
}

impl ControllerView {
    /// The step of one turn.
    pub open spec fn turn(self, turn: Turn) -> Step {
        self.tick(turn.tick, turn.now)
    }

    /// The state after a sequence of turns.
    pub open spec fn after_turns(self, turns: Seq<Turn>) -> ControllerView
        decreases turns.len(),
    {
        if turns.len() == 0 {
            self
        } else {
            self.after_turns(turns.drop_last()).turn(turns.last()).next
        }
    }
}

/// How many of the six variants a status is.
pub open spec fn active_variants(status: StatusView) -> int {
    (if status is Disconnected { 1int } else { 0 })
    + (if status is RetryingConnection { 1int } else { 0 })
    + (if status is Quitting { 1int } else { 0 })
    + (if status is TunnelReady { 1int } else { 0 })
    + (if status is WaitingForPortal { 1int } else { 0 })
    + (if status is WaitingForTunnel { 1int } else { 0 })
}

/// After every sequence of turns the status is exactly one of its six
/// variants.
pub proof fn exactly_one_status_after_turns(start: ControllerView, turns: Seq<Turn>)
    ensures
        active_variants(start.after_turns(turns).status) == 1,
{
}

/// A session starts from `Disconnected` and from `RetryingConnection`, and
/// from no other status. Where it starts, `Connect` is sent with the token
/// and the status becomes `WaitingForPortal`. Where it does not, the state
/// is the same, nothing is asked for, and the refusal says whether the
/// controller is quitting, connected or connecting.
pub proof fn session_starts_only_when_idle(state: ControllerView, token: Seq<char>, now: Instant)
    ensures
        state.status.may_start_session() ==> {
            let step = state.start_session(token, now);
            &&& step.next.status == StatusView::WaitingForPortal { start_instant: now, token }
            &&& step.outcome.end == End::Continue
            &&& step.outcome.actions[0] == ActionView::Send(
                ClientMsgView::Connect { api_url: state.advanced_settings.api_url, token },
            )
        },
        !state.status.may_start_session() ==> {
            let step = state.start_session(token, now);
            &&& step.next == state
            &&& step.outcome.actions.len() == 0
            &&& step.outcome.end == End::Fail(
                if state.status is Quitting {
                    Fault::Quitting
                } else if state.status is TunnelReady {
                    Fault::AlreadyConnected
                } else {
                    Fault::AlreadyConnecting
                },
            )
        },
{
}

/// A deep link starts a session as anything else does, in two steps: what
/// it asks for before the status changes, and what follows once `Connect`
/// is with the service, are together what starting a session asks for, with
/// the telemetry context in front; and the state afterwards is the same.
pub proof fn deep_link_starts_a_session_in_two_steps(
    state: ControllerView,
    token: Seq<char>,
    account_slug: Option<Seq<char>>,
    release: Seq<char>,
    now: Instant,
)
    ensures
        state.status.may_start_session() ==> {
            let first = state.deep_link(token, account_slug, release);
            let second = state.connect_sent(token, now);
            let whole = state.start_session(token, now).after(
                state.telemetry_context(account_slug, release),
            );
            &&& first.end == End::Continue
            &&& first.actions + second.outcome.actions == whole.outcome.actions
            &&& second.outcome.end == whole.outcome.end
            &&& second.next == whole.next
        },
        !state.status.may_start_session() ==> {
            let first = state.deep_link(token, account_slug, release);
            let whole = state.start_session(token, now).after(
                state.telemetry_context(account_slug, release),
            );
            &&& first == whole.outcome
            &&& whole.next == state
        },
{
    if state.status.may_start_session() {
        let first = state.deep_link(token, account_slug, release);
        let second = state.connect_sent(token, now);
        let whole = state.start_session(token, now).after(
            state.telemetry_context(account_slug, release),
        );
        assert(first.actions + second.outcome.actions =~= whole.outcome.actions);
    } else {
        let first = state.deep_link(token, account_slug, release);
        let whole = state.start_session(token, now).after(
            state.telemetry_context(account_slug, release),
        );
        assert(first.actions =~= whole.outcome.actions);
    }
}

/// A list of resources that arrives while the tunnel is neither up nor
/// being raised changes nothing and asks for nothing.
pub proof fn unwanted_resources_change_nothing(
    state: ControllerView,
    resources: Vec<Resource>,
    now: Instant,
)
    requires
        !state.status.needs_resource_updates(),
    ensures
        state.tick(
            EventloopTick::IpcMsg(Some(Ok(ServerMsg::OnUpdateResources(resources)))),
            now,
        ) == state.stay(),
{
}

/// While the controller is quitting, no turn sends `Connect` and no turn
/// leaves `Quitting`.
pub proof fn quitting_stays_and_never_connects(state: ControllerView, turn: Turn)
    requires
        state.status is Quitting,
    ensures
        state.turn(turn).next.status is Quitting,
        state.turn(turn).outcome.sends_no_connect(),
{
    let step = state.turn(turn);
    assert forall|i: int| 0 <= i < step.outcome.actions.len() implies !(
    #[trigger] step.outcome.actions[i]).is_connect() by {
        quitting_step_sends_no_connect(state, turn, i);
    }
}

/// While the controller is quitting, no session starts: not on request,
/// not for a stored token, and not for a deep link.
pub proof fn quitting_refuses_sessions(
    state: ControllerView,
    token: Seq<char>,
    account_slug: Option<Seq<char>>,
    release: Seq<char>,
    now: Instant,
)
    requires
        state.status is Quitting,
    ensures
        state.start_session(token, now) == state.abort(Fault::Quitting),
        state.connect_sent(token, now) == state.abort(Fault::Quitting),
        state.deep_link(token, account_slug, release).end == End::Fail(Fault::Quitting),
        state.deep_link(token, account_slug, release).sends_no_connect(),
        state.enter_main_loop(Some(token), account_slug, release, now).next == state,
        state.enter_main_loop(Some(token), account_slug, release, now).outcome.sends_no_connect(),
{
}

/// One action of one turn of a quitting controller is no `Connect`.
proof fn quitting_step_sends_no_connect(state: ControllerView, turn: Turn, i: int)
    requires
        state.status is Quitting,
        0 <= i < state.turn(turn).outcome.actions.len(),
    ensures
        !state.turn(turn).outcome.actions[i].is_connect(),
        state.turn(turn).next.status is Quitting,
{
}

/// Once the controller is quitting, it is quitting after every further
/// sequence of turns, and none of those turns sends `Connect`.
pub proof fn never_connects_after_quitting(state: ControllerView, turns: Seq<Turn>)
    requires
        state.status is Quitting,
    ensures
        state.after_turns(turns).status is Quitting,
        forall|i: int|
            0 <= i < turns.len() ==> (#[trigger] state.after_turns(turns.take(i)).turn(
                turns[i],
            )).outcome.sends_no_connect(),
    decreases turns.len(),
{
    if turns.len() > 0 {
        let before = turns.drop_last();
        never_connects_after_quitting(state, before);
        quitting_stays_and_never_connects(state.after_turns(before), turns.last());
        assert forall|i: int| 0 <= i < turns.len() implies (#[trigger] state.after_turns(
            turns.take(i),
        ).turn(turns[i])).outcome.sends_no_connect() by {
            if i < before.len() {
                assert(turns.take(i) == before.take(i));
                assert(turns[i] == before[i]);
            } else {
                assert(turns.take(i) == before);
            }
        }
    }
}

/// The event loop ends well on one turn and on no other: the service
/// confirms the disconnect while the controller is quitting.
pub proof fn loop_ends_well_on_confirmed_disconnect_only(state: ControllerView, turn: Turn)
    ensures
        state.turn(turn).outcome.end == End::Break <==> turn.tick == EventloopTick::IpcMsg(
            Some(Ok(ServerMsg::DisconnectedGracefully)),
        ) && state.status is Quitting,
{
}

/// A source that has closed, a notifier that failed and a service that
/// shuts down end the loop with a fault, in every status, and change
/// nothing.
pub proof fn closed_sources_end_the_loop_with_a_fault(state: ControllerView, turn: Turn)
    requires
        ({
            ||| turn.tick is NetworkChanged && turn.tick->NetworkChanged_0 is Err
            ||| turn.tick is DnsChanged && turn.tick->DnsChanged_0 is Err
            ||| turn.tick == EventloopTick::IpcMsg(None)
            ||| turn.tick is IpcMsg && turn.tick->IpcMsg_0 matches Some(Err(_))
            ||| turn.tick == EventloopTick::IpcMsg(Some(Ok(ServerMsg::TerminatingGracefully)))
            ||| turn.tick == EventloopTick::ControllerRequest(None)
            ||| turn.tick == EventloopTick::UpdateNotification(None)
            ||| turn.tick == EventloopTick::NewInstanceLaunched(None)
        }),
    ensures
        state.turn(turn).outcome.end is Fail,
        state.turn(turn).next == state,
{
}

/// Serving a newly launched instance never stops the loop: the tick asks
/// for the serving alone and lets the loop go on, a failure of the serving
/// is passed over, no failure of an action within the handoff stops the
/// loop, and the reply is `Ack` whatever the instance sent.
pub proof fn a_new_instance_never_stops_the_loop(
    state: ControllerView,
    now: Instant,
    read: Option<Result<ClientMsg, String>>,
    action: ActionView,
)
    ensures
        state.tick(EventloopTick::NewInstanceLaunched(Some(Ok(()))), now) == state.stay_and(
            seq![ActionView::ServeNewInstance],
        ),
        ActionView::ServeNewInstance.on_failure(During::Turn) == OnFailure::GoOn,
        action.on_failure(During::Handoff) == OnFailure::GiveUp,
        handoff(read).reply == crate::gui::ServerMsg::Ack,
{
}

/// A caller that asks for cleared logs is the one that is answered, with
/// what the service reported and nothing else; a caller that asked before
/// and was not answered yet is given up.
pub proof fn cleared_logs_answer_the_last_caller(
    state: ControllerView,
    caller: Sender<Result<(), String>>,
    answer: Result<(), String>,
    now: Instant,
)
    ensures
        ({
            let asked = state.request(ControllerRequest::ClearLogs(caller), now).next;
            let answered = asked.service_msg(ServerMsg::ClearedLogs(answer));
            &&& asked.clear_logs_caller == Some(caller)
            &&& answered.outcome == OutcomeView::proceed(
                seq![ActionView::AnswerClearedLogs { caller, answer }],
            )
            &&& answered.next.clear_logs_caller is None
            &&& answered.next.status == state.status
        }),
{
}

/// Signing out asks for the same, `Disconnect` included, whether a session
/// was up, coming up, or not there at all: nothing in the outcome tells a
/// disconnect of a disconnected service from any other.
pub proof fn sign_out_is_the_same_from_every_status(a: ControllerView, b: ControllerView)
    requires
        !(a.status is Quitting),
        !(b.status is Quitting),
    ensures
        a.sign_out().outcome == b.sign_out().outcome,
        a.sign_out().outcome.end == End::Continue,
        a.sign_out().next.status == StatusView::Disconnected,
        a.sign_out().next.sign_out().outcome == a.sign_out().outcome,
        a.sign_out().next.sign_out().next == a.sign_out().next,
{
}

/// Only a change of the network or of DNS retries by itself, and only in
/// `RetryingConnection`: there it starts a session with the token that was
/// kept, and tells the service nothing about the change.
pub proof fn network_change_retries_with_kept_token(
    state: ControllerView,
    token: Seq<char>,
    now: Instant,
)
    requires
        state.status == (StatusView::RetryingConnection { token }),
    ensures
        state.network_changed(now) == state.start_session(token, now),
        forall|resolvers: Seq<IpAddress>|
            #[trigger] state.dns_changed(resolvers, now) == state.start_session(token, now),
        state.start_session(token, now).next.status == (StatusView::WaitingForPortal {
            start_instant: now,
            token,
        }),
{
}

/// Outside `RetryingConnection`, a change of the network or of DNS leaves
/// the state as it is; the service hears of it while a session is up or
/// coming up, and not otherwise.
pub proof fn network_change_is_forwarded_while_connected(
    state: ControllerView,
    resolvers: Seq<IpAddress>,
    now: Instant,
)
    requires
        !(state.status is RetryingConnection),
    ensures
        state.network_changed(now).next == state,
        state.dns_changed(resolvers, now).next == state,
        state.network_changed(now).outcome == if state.status.needs_network_changes() {
            OutcomeView::proceed(seq![ActionView::Send(ClientMsgView::Reset)])
        } else {
            OutcomeView::nothing()
        },
        state.dns_changed(resolvers, now).outcome == if state.status.needs_network_changes() {
            OutcomeView::proceed(seq![ActionView::Send(ClientMsgView::SetDns(resolvers))])
        } else {
            OutcomeView::nothing()
        },
{
}

} // verus!
