//! The orchestrator: it lets one action in at a time, routes it to the
//! application that registered for it, and watches its deadline.

use vstd::prelude::*;
use crate::action::{Action, ActionResponse, ActionResponseView, ActionView};
use crate::channel::{try_send, TrySendError};
use crate::delaymap::{deadline, deadline_after};
use crate::metrics::StreamMetrics;
use crate::payload::{views, Payload, PayloadView};
use crate::stream::{
    option_package_view, Package, PackageView, Stream, StreamStatus, StreamStatusView, StreamView,
    DEFAULT_TIMEOUT,
};
use crate::streams::{Streams, StreamsView};
use crate::table::Table;
use crate::text::{joined, same_text, texts};

verus! {

/// A route that an application declares: the name of the actions it
/// takes, and the seconds it may take over one of them.
#[derive(Debug, Default)]
pub struct ActionRoute {
    pub name: String,
    pub timeout: u64,
}

impl Clone for ActionRoute {
    fn clone(&self) -> (r: Self)
        ensures
            r == *self,
    {
        ActionRoute { name: self.name.clone(), timeout: self.timeout }
    }
}

impl From<&ActionRoute> for ActionRoute {
    fn from(value: &ActionRoute) -> (r: Self) {
        value.clone()
    }
}

impl vstd::std_specs::convert::FromSpecImpl<&ActionRoute> for ActionRoute {
    open spec fn obeys_from_spec() -> bool {
        true
    }

    open spec fn from_spec(value: &ActionRoute) -> Self {
        *value
    }
}

/// A stream's topic, the number of points in one batch, and the seconds to
/// wait after the first point of a batch before it is flushed.
#[derive(Debug, Default)]
pub struct StreamConfig {
    pub topic: String,
    pub buf_size: usize,
    pub flush_period: u64,
}

impl Clone for StreamConfig {
    fn clone(&self) -> (r: Self)
        ensures
            r == *self,
    {
        StreamConfig {
            topic: self.topic.clone(),
            buf_size: self.buf_size,
            flush_period: self.flush_period,
        }
    }
}

/// Whether stream counters are reported, on which topic, for which
/// streams not, and every how many seconds.
#[derive(Debug, Clone, Default)]
pub struct StreamMetricsConfig {
    pub enabled: bool,
    pub topic: String,
    pub blacklist: Vec<String>,
    pub timeout: u64,
}

impl StreamMetricsConfig {
    /// Whether the counters of the stream `stream` are kept from the
    /// backend.
    pub fn is_blacklisted(&self, stream: &str) -> (b: bool)
        ensures
            b == texts(self.blacklist@).contains(stream@),
    {
        let mut i: usize = 0;
        while i < self.blacklist.len()
            invariant
                i <= self.blacklist.len(),
                forall|j: int| 0 <= j < i ==> texts(self.blacklist@)[j] != stream@,
            decreases self.blacklist.len() - i,
        {
            if same_text(&self.blacklist[i], stream) {
                assert(texts(self.blacklist@)[i as int] == stream@);
                return true;
            }
            i += 1;
        }
        false
    }
}

/// What the bridge is set up with.
#[derive(Debug, Clone, Default)]
pub struct Config {
    pub project_id: String,
    pub device_id: String,
    /// The configured streams, by name.
    pub streams: Table<StreamConfig>,
    pub action_status: StreamConfig,
    pub stream_metrics: StreamMetricsConfig,
    /// For an action name, the route that takes over once the action is
    /// done.
    pub action_redirections: Table<String>,
    pub ignore_actions_if_no_clients: bool,
}

/// Why an action was not carried out.
#[derive(Debug)]
pub enum Error {
    /// The application has not taken its previous action yet, or is gone.
    UnresponsiveReceiver,
    /// No application registered for the action's name.
    NoRoute(String),
    /// No final response came before the deadline.
    ActionTimeout,
    /// Another action is in flight.
    Busy,
}

/// What an [`Error`] says.
pub enum ErrorView {
    UnresponsiveReceiver,
    NoRoute(Seq<char>),
    ActionTimeout,
    Busy,
}

impl ErrorView {
    /// The sentence that reports the error to the backend.
    pub open spec fn message(self) -> Seq<char> {
        match self {
            ErrorView::UnresponsiveReceiver => "Action receiver busy or down"@,
            ErrorView::NoRoute(name) => "No route for action "@ + name,
            ErrorView::ActionTimeout => "Action timedout"@,
            ErrorView::Busy => "Another action is currently being processed"@,
        }
    }
}

impl View for Error {
    type V = ErrorView;

    open spec fn view(&self) -> ErrorView {
        match self {
            Error::UnresponsiveReceiver => ErrorView::UnresponsiveReceiver,
            Error::NoRoute(name) => ErrorView::NoRoute(name@),
            Error::ActionTimeout => ErrorView::ActionTimeout,
            Error::Busy => ErrorView::Busy,
        }
    }
}

impl Error {
    /// The sentence that reports the error to the backend.
    pub fn to_string(&self) -> (s: String)
        ensures
            s@ == self@.message(),
    {
        match self {
            Error::UnresponsiveReceiver => String::from_str("Action receiver busy or down"),
            Error::NoRoute(name) => joined("No route for action ", name.as_str()),
            Error::ActionTimeout => String::from_str("Action timedout"),
            Error::Busy => String::from_str("Another action is currently being processed"),
        }
    }
}

/// The handle of a registered route: the channel into the application,
/// which holds one action at a time, and the seconds the application may
/// take over an action.
#[derive(Debug)]
pub struct ActionRouter {
    actions_tx: flume::Sender<Action>,
    duration: u64,
}

impl ActionRouter {
    /// The seconds the application may take over an action.
    pub closed spec fn spec_timeout(self) -> u64 {
        self.duration
    }

    /// The channel into the application.
    pub closed spec fn spec_sender(self) -> flume::Sender<Action> {
        self.actions_tx
    }

    /// A route into the channel `actions_tx` with `timeout` seconds per
    /// action.
    pub fn new(actions_tx: flume::Sender<Action>, timeout: u64) -> (r: ActionRouter)
        ensures
            r.spec_timeout() == timeout,
            r.spec_sender() == actions_tx,
    {
        ActionRouter { actions_tx, duration: timeout }
    }

    /// The seconds the application may take over an action.
    pub fn timeout(&self) -> (t: u64)
        ensures
            t == self.spec_timeout(),
    {
        self.duration
    }

    /// Offers `action` to the application without waiting. On success the
    /// route's timeout comes back; if the application's slot is taken or
    /// the application is gone, the action comes back in the error.
    pub fn try_send(&self, action: Action) -> (r: Result<u64, TrySendError<Action>>)
        ensures
            match r {
                Ok(t) => t == self.spec_timeout(),
                Err(e) => e.message() == action,
            },
    {
        match try_send(&self.actions_tx, action) {
            Ok(()) => Ok(self.duration),
            Err(e) => Err(e),
        }
    }
}

/// What an application sends to the bridge.
#[derive(Debug)]
pub enum Event {
    /// A route's name and the handle to send its actions to.
    RegisterActionRoute(String, ActionRouter),
    /// A telemetry point.
    Data(Payload),
    /// A report on the action in flight.
    ActionResponse(ActionResponse),
}

/// The action in flight: its identity, the action as it was routed, and
/// the moment (milliseconds since the epoch) by which a response is due.
#[derive(Debug)]
pub struct CurrentAction {
    pub id: String,
    pub action: Action,
    pub deadline: u64,
}

/// What a [`CurrentAction`] holds, field by field.
pub struct CurrentActionView {
    pub id: Seq<char>,
    pub action: ActionView,
    pub deadline: u64,
}

impl View for CurrentAction {
    type V = CurrentActionView;

    open spec fn view(&self) -> CurrentActionView {
        CurrentActionView { id: self.id@, action: self.action@, deadline: self.deadline }
    }
}

impl CurrentActionView {
    /// The record of `action`, routed at `now` with `timeout` seconds to
    /// answer.
    pub open spec fn new(action: ActionView, now: u64, timeout: u64) -> CurrentActionView {
        CurrentActionView { id: action.action_id, action, deadline: deadline_after(now, timeout) }
    }
}

impl CurrentAction {
    /// The record of `action`, routed at `now` with `timeout` seconds to
    /// answer.
    pub fn new(action: Action, now: u64, timeout: u64) -> (c: CurrentAction)
        ensures
            c@ == CurrentActionView::new(action@, now, timeout),
    {
        CurrentAction { id: action.action_id.clone(), action, deadline: deadline(now, timeout) }
    }
}

/// The view of an optional action in flight.
pub open spec fn current_view(c: Option<CurrentAction>) -> Option<CurrentActionView> {
    match c {
        Some(c) => Some(c@),
        None => None,
    }
}

/// The state of the bridge.
pub struct BridgeView {
    /// Whether actions that cannot be routed are dropped without a reply.
    pub ignore_actions_if_no_clients: bool,
    /// For an action name, the route that takes over once it is done.
    pub redirections: Map<Seq<char>, Seq<char>>,
    /// The registered routes, by name.
    pub routes: Map<Seq<char>, ActionRouter>,
    /// The buffer of responses on their way to the backend.
    pub action_status: StreamView<ActionResponseView>,
    /// The action in flight, if any.
    pub current_action: Option<CurrentActionView>,
    /// The telemetry streams.
    pub streams: StreamsView,
}

/// A state of the bridge together with the batches of responses that
/// left for the backend on the way to it, in order.
pub type Step = (BridgeView, Seq<PackageView<ActionResponseView>>);

impl BridgeView {
    /// The bridge after `response` was put on the status stream at `now`,
    /// and the batch that this completed, if any.
    pub open spec fn respond(self, response: ActionResponseView, now: u64) -> Step {
        let (stream, status) = self.action_status.fill(
            response,
            response.sequence,
            response.timestamp,
            now,
        );
        (
            BridgeView { action_status: stream, ..self },
            match status {
                StreamStatusView::Flushed(_, package) => seq![package],
                _ => Seq::empty(),
            },
        )
    }

    /// The bridge with no action in flight.
    pub open spec fn cleared(self) -> BridgeView {
        BridgeView { current_action: None, ..self }
    }

    /// The bridge after it reported that the action `id` failed with
    /// `error` and gave up whatever was in flight.
    pub open spec fn fail(self, id: Seq<char>, error: ErrorView, now: u64) -> Step {
        let (bridge, packages) = self.respond(ActionResponseView::failure(id, error.message(), now), now);
        (bridge.cleared(), packages)
    }

    /// The seconds that the route `name` grants, or the default if no
    /// such route is registered.
    pub open spec fn timeout_of(self, name: Seq<char>) -> u64 {
        if self.routes.contains_key(name) {
            self.routes[name].spec_timeout()
        } else {
            DEFAULT_TIMEOUT
        }
    }

    /// The bridge with `action` in flight, routed at `now`.
    pub open spec fn install(self, action: ActionView, now: u64) -> BridgeView {
        BridgeView {
            current_action: Some(CurrentActionView::new(action, now, self.timeout_of(action.name))),
            ..self
        }
    }

    /// Whether an action other than the one known as `id` is in flight.
    pub open spec fn occupied_by_other(self, id: Seq<char>) -> bool {
        self.current_action matches Some(current) && current.id != id
    }

    /// Why `action` cannot be routed, if it cannot: no route has its
    /// name; or else another action is in flight; or else the route did
    /// not accept it.
    pub open spec fn route_error(self, action: ActionView, accepted: bool) -> Option<ErrorView> {
        if !self.routes.contains_key(action.name) {
            Some(ErrorView::NoRoute(action.name))
        } else if self.occupied_by_other(action.action_id) {
            Some(ErrorView::Busy)
        } else if !accepted {
            Some(ErrorView::UnresponsiveReceiver)
        } else {
            None
        }
    }

    /// The bridge after an attempt to route `action` at `now`, where
    /// `accepted` says whether the application took it: a routed action
    /// is in flight, in place of what was; a refusal changes nothing.
    pub open spec fn try_route(self, action: ActionView, now: u64, accepted: bool) -> BridgeView {
        if self.route_error(action, accepted) is None {
            self.install(action, now)
        } else {
            self
        }
    }

    /// The bridge after the backend sent `action` at `now`.
    ///
    /// While an action is in flight the newcomer is refused with `Busy`
    /// and nothing else changes. Otherwise the action is routed: on
    /// success it is in flight and `Received` is reported; on failure the
    /// error is reported, or nothing at all if the bridge is set up to
    /// ignore actions that no application takes.
    pub open spec fn on_action(self, action: ActionView, now: u64, accepted: bool) -> Step {
        if self.current_action is Some {
            self.respond(ActionResponseView::failure(action.action_id, ErrorView::Busy.message(), now), now)
        } else {
            match self.route_error(action, accepted) {
                None => self.install(action, now).respond(
                    ActionResponseView::progress(action.action_id, "Received"@, 0, now),
                    now,
                ),
                Some(error) => if self.ignore_actions_if_no_clients {
                    (self, Seq::empty())
                } else {
                    self.fail(action.action_id, error, now)
                },
            }
        }
    }

    /// The action that is handed on when `current` is done: the one that
    /// the response carries, or else the one in flight, addressed to
    /// `target`.
    pub open spec fn forwarded(current: CurrentActionView, response: ActionResponseView, target: Seq<char>) -> ActionView {
        match response.done_response {
            Some(action) => action.renamed(target),
            None => current.action.renamed(target),
        }
    }

    /// The bridge after an application sent `response` at `now`.
    ///
    /// A response that does not belong to the action in flight is
    /// discarded. Any other is put on the status stream. A final one
    /// (completed or failed) ends the action. One that is not final gives
    /// the action a new deadline, from the timeout of its route. One that
    /// is done gives up the slot and hands the action to the route it is
    /// redirected to; without a redirection the action is reported
    /// completed and ends, and if the next route cannot take it the
    /// failure is reported and it ends.
    pub open spec fn on_response(self, response: ActionResponseView, now: u64, accepted: bool) -> Step {
        match self.current_action {
            None => (self, Seq::empty()),
            Some(current) => if current.id != response.action_id {
                (self, Seq::empty())
            } else {
                let (recorded, first) = self.respond(response, now);
                if response.is_completed() || response.is_failed() {
                    (recorded.cleared(), first)
                } else if !response.is_done() {
                    (
                        BridgeView {
                            current_action: Some(
                                CurrentActionView {
                                    deadline: deadline_after(now, self.timeout_of(current.action.name)),
                                    ..current
                                },
                            ),
                            ..recorded
                        },
                        first,
                    )
                } else if !self.redirections.contains_key(current.action.name) {
                    let (closed, second) = recorded.respond(ActionResponseView::success(current.id, now), now);
                    (closed.cleared(), first + second)
                } else {
                    let action = Self::forwarded(current, response, self.redirections[current.action.name]);
                    let freed = recorded.cleared();
                    match freed.route_error(action, accepted) {
                        None => (freed.install(action, now), first),
                        Some(error) => {
                            let (failed, second) = freed.fail(action.action_id, error, now);
                            (failed, first + second)
                        },
                    }
                }
            },
        }
    }

    /// The bridge after a look at the deadline at `now`: if it has come,
    /// the action in flight ends and its timeout is reported.
    pub open spec fn on_timeout(self, now: u64) -> Step {
        match self.current_action {
            Some(current) => if current.deadline <= now {
                self.fail(current.action.action_id, ErrorView::ActionTimeout, now)
            } else {
                (self, Seq::empty())
            },
            None => (self, Seq::empty()),
        }
    }

    /// The next moment at which a timer of the bridge expires: the
    /// deadline of the action in flight or that of the flush timer that
    /// expires next, whichever comes first.
    pub open spec fn next_wakeup(self) -> Option<u64> {
        earlier(
            match self.current_action {
                Some(current) => Some(current.deadline),
                None => None,
            },
            if self.streams.timeouts.timers.len() > 0 {
                Some(self.streams.timeouts.timers[self.streams.timeouts.next_index()].deadline)
            } else {
                None
            },
        )
    }

    /// The bridge with `router` registered under `name`, in place of any
    /// route of that name.
    pub open spec fn register(self, name: Seq<char>, router: ActionRouter) -> BridgeView {
        BridgeView { routes: self.routes.insert(name, router), ..self }
    }
}

/// What the bridge does with an input without a word to anyone: worth a
/// line in the log of whoever runs it.
#[derive(Debug, Clone, Copy, PartialEq, Eq, Structural)]
pub enum Notice {
    /// The action is refused: another one is in flight.
    Busy,
    /// The point is dropped: its stream is unknown and no further stream
    /// may be created.
    DroppedPoint,
    /// The response is discarded: it does not belong to the action in
    /// flight.
    StaleResponse,
    /// The action is done and no route takes over: it is reported
    /// completed.
    MissingRedirection,
}

impl BridgeView {
    /// Whether `response` is discarded: no action is in flight, or the
    /// one in flight is known by another identity.
    pub open spec fn discards(self, response: ActionResponseView) -> bool {
        match self.current_action {
            Some(current) => current.id != response.action_id,
            None => true,
        }
    }

    /// Whether `response` ends the action in flight for want of a route
    /// to hand it to: it belongs to the action, is done, and the action's
    /// name is not redirected.
    pub open spec fn lacks_redirection(self, response: ActionResponseView) -> bool {
        &&& self.current_action matches Some(current)
        &&& current.id == response.action_id
        &&& response.is_done()
        &&& !self.redirections.contains_key(current.action.name)
    }

    /// What is to be noticed of the way the bridge handles `input`.
    pub open spec fn notice(self, input: Input) -> Option<Notice> {
        match input {
            Input::Action(_) => if self.current_action is Some {
                Some(Notice::Busy)
            } else {
                None
            },
            Input::Event(Event::Data(payload)) => if self.streams.drops(payload@.stream) {
                Some(Notice::DroppedPoint)
            } else {
                None
            },
            Input::Event(Event::ActionResponse(response)) => if self.discards(response@) {
                Some(Notice::StaleResponse)
            } else if self.lacks_redirection(response@) {
                Some(Notice::MissingRedirection)
            } else {
                None
            },
            _ => None,
        }
    }
}

/// A notice says what the turn then does: a refused action leaves the
/// slot as it is, a dropped point and a discarded response leave the
/// whole bridge as it is and nothing leaves it, and an action that lacks
/// a redirection gives up the slot.
pub proof fn lemma_notice_foretells(bridge: BridgeView, input: Input, now: u64, after: BridgeView, out: OutputView)
    requires
        bridge.steps(input, now, after, out),
    ensures
        bridge.notice(input) == Some(Notice::Busy) ==> after.current_action == bridge.current_action,
        bridge.notice(input) == Some(Notice::DroppedPoint) || bridge.notice(input) == Some(
            Notice::StaleResponse,
        ) ==> after == bridge && out == OutputView::nothing(),
        bridge.notice(input) == Some(Notice::MissingRedirection) ==> after.current_action is None,
{
}

/// At most one action is in flight. The state has room for one, and a
/// second one is never let in beside it: while an action is in flight, an
/// action from the backend is answered with `Busy` on the status stream
/// and the action in flight, the routes and the telemetry streams stay as
/// they are, whatever the application would have answered.
pub proof fn lemma_one_action_in_flight(bridge: BridgeView, action: ActionView, now: u64, accepted: bool)
    requires
        bridge.current_action is Some,
    ensures
        bridge.on_action(action, now, accepted) == bridge.respond(
            ActionResponseView::failure(
                action.action_id,
                "Another action is currently being processed"@,
                now,
            ),
            now,
        ),
        bridge.on_action(action, now, accepted).0 == (BridgeView {
            action_status: bridge.on_action(action, now, accepted).0.action_status,
            ..bridge
        }),
{
}

/// An action from the backend comes to be in flight only on an idle
/// bridge, through a registered route that accepted it; its deadline is
/// then the route's timeout away, and `Received` is the response recorded.
pub proof fn lemma_action_in_flight_was_routed(bridge: BridgeView, action: ActionView, now: u64, accepted: bool)
    requires
        bridge.current_action is None,
    ensures
        bridge.on_action(action, now, accepted).0.current_action is Some <==> accepted
            && bridge.routes.contains_key(action.name),
        bridge.on_action(action, now, accepted).0.current_action matches Some(current) ==> {
            &&& current.id == action.action_id
            &&& current.action == action
            &&& current.deadline == deadline_after(now, bridge.routes[action.name].spec_timeout())
            &&& bridge.on_action(action, now, accepted) == bridge.install(action, now).respond(
                ActionResponseView::progress(action.action_id, "Received"@, 0, now),
                now,
            )
        },
{
}

/// A response leaves at most one action in flight, and never one where
/// none was: without an action in flight, and for a response to another
/// action than the one in flight, nothing changes and nothing is
/// reported.
pub proof fn lemma_stale_response_discarded(bridge: BridgeView, response: ActionResponseView, now: u64, accepted: bool)
    requires
        bridge.current_action matches Some(current) ==> current.id != response.action_id,
    ensures
        bridge.on_response(response, now, accepted) == (bridge, Seq::<PackageView<ActionResponseView>>::empty()),
{
}

/// No telemetry point waits for ever: whatever the bridge handles, every
/// point that waits in a stream of more than one point per batch stays
/// covered by an armed flush timer, and the registry stays well formed.
pub proof fn lemma_step_keeps_cover(bridge: BridgeView, input: Input, now: u64, after: BridgeView, out: OutputView)
    requires
        bridge.streams.wf(),
        bridge.streams.covered(),
        bridge.steps(input, now, after, out),
    ensures
        after.streams.wf(),
        after.streams.covered(),
{
    match input {
        Input::Action(action) => {},
        Input::Event(event) => {
            match event {
                Event::Data(payload) => {
                    bridge.streams.lemma_forward_keeps_wf(payload@, now);
                    bridge.streams.lemma_forward_keeps_cover(payload@, now);
                },
                _ => {},
            }
        },
        Input::ActionTimeout => {},
        Input::StreamTimeout => {
            bridge.streams.lemma_on_timeout_keeps_cover(now);
        },
        Input::MetricsTick => {
            match out.rejected_metrics {
                None => {
                    bridge.streams.lemma_reported(bridge.streams.streams.len() as int);
                },
                Some(e) => {
                    let k = choose|k: int|
                        0 <= k < bridge.streams.streams.len() && bridge.streams.metrics_due(k) && e.message()@
                            == bridge.streams.streams[k].metrics && after == (BridgeView {
                            streams: #[trigger] bridge.streams.reported_upto(k),
                            ..bridge
                        });
                    bridge.streams.lemma_reported(k);
                },
            }
            assert forall|i: int|
                0 <= i < after.streams.streams.len() && (#[trigger] after.streams.streams[i]).max_buffer_size > 1
                    && after.streams.streams[i].items.len() > 0 implies after.streams.timeouts.armed(
                after.streams.streams[i].name,
            ) by {
                assert(bridge.streams.timeouts.armed(bridge.streams.streams[i].name));
            }
        },
    }
}

/// The action in flight is known by the identity it was routed with:
/// whatever the bridge handles, the identity on record stays that of the
/// action on record.
pub proof fn lemma_step_keeps_identity(bridge: BridgeView, input: Input, now: u64, after: BridgeView, out: OutputView)
    requires
        bridge.current_action matches Some(current) ==> current.id == current.action.action_id,
        bridge.steps(input, now, after, out),
    ensures
        after.current_action matches Some(current) ==> current.id == current.action.action_id,
{
}

/// Responses reach the backend in the order in which they were recorded,
/// none lost and none twice: a recorded response is the last one waiting
/// on the status stream, or, if it completed a batch, the last one of
/// that batch, behind all that were waiting; nothing else changes.
pub proof fn lemma_responses_keep_order(bridge: BridgeView, response: ActionResponseView, now: u64)
    ensures
        bridge.respond(response, now).0 == (BridgeView {
            action_status: bridge.respond(response, now).0.action_status,
            ..bridge
        }),
        bridge.respond(response, now).1.len() <= 1,
        bridge.respond(response, now).1.len() == 0 ==> bridge.respond(response, now).0.action_status.items
            == bridge.action_status.items.push(response),
        bridge.respond(response, now).1.len() == 1 ==> bridge.respond(response, now).1[0].points
            == bridge.action_status.items.push(response) && bridge.respond(
            response,
            now,
        ).0.action_status.items.len() == 0,
{
    crate::stream::lemma_fill_keeps_order(
        bridge.action_status,
        response,
        response.sequence,
        response.timestamp,
        now,
    );
}

/// The earlier of two optional moments.
pub open spec fn earlier(a: Option<u64>, b: Option<u64>) -> Option<u64> {
    match (a, b) {
        (Some(a), Some(b)) => Some(if a <= b { a } else { b }),
        (Some(a), None) => Some(a),
        (None, b) => b,
    }
}

/// What wakes the bridge.
#[derive(Debug)]
pub enum Input {
    /// The backend sent an action.
    Action(Action),
    /// An application sent an event.
    Event(Event),
    /// The deadline of the action in flight was reached.
    ActionTimeout,
    /// A flush timer of a telemetry stream was reached.
    StreamTimeout,
    /// The period for reporting stream counters is over.
    MetricsTick,
}

/// What left the bridge while it handled an input.
#[derive(Debug)]
pub struct Output {
    /// Batches of responses for the backend, in order.
    pub statuses: Vec<Package<ActionResponse>>,
    /// A batch of telemetry.
    pub data: Option<Package<Payload>>,
    /// The report of stream counters that the channel did not accept.
    pub rejected_metrics: Option<TrySendError<StreamMetrics>>,
}

/// What an [`Output`] holds.
pub struct OutputView {
    pub statuses: Seq<PackageView<ActionResponseView>>,
    pub data: Option<PackageView<PayloadView>>,
    pub rejected_metrics: Option<TrySendError<StreamMetrics>>,
}

impl View for Output {
    type V = OutputView;

    open spec fn view(&self) -> OutputView {
        OutputView {
            statuses: views(self.statuses@),
            data: option_package_view(self.data),
            rejected_metrics: self.rejected_metrics,
        }
    }
}

impl OutputView {
    /// Nothing left the bridge.
    pub open spec fn nothing() -> OutputView {
        OutputView { statuses: Seq::empty(), data: None, rejected_metrics: None }
    }

    /// Only batches of responses left the bridge.
    pub open spec fn only_statuses(self) -> bool {
        self.data is None && self.rejected_metrics is None
    }
}

impl BridgeView {
    /// Whether `after` and `out` are what handling `event` at `now` makes
    /// of this bridge: a route is registered, a telemetry point goes to
    /// its stream, a response is dealt with as [`BridgeView::on_response`]
    /// says, where the action is in flight afterwards exactly if the next
    /// route accepted it.
    pub open spec fn handles(self, event: Event, now: u64, after: BridgeView, out: OutputView) -> bool {
        match event {
            Event::RegisterActionRoute(name, router) => {
                &&& after == self.register(name@, router)
                &&& out == OutputView::nothing()
            },
            Event::Data(payload) => {
                &&& after == (BridgeView { streams: self.streams.forward(payload@, now).0, ..self })
                &&& out == (OutputView { data: self.streams.forward(payload@, now).1, ..OutputView::nothing() })
            },
            Event::ActionResponse(response) => {
                &&& (after, out.statuses) == self.on_response(response@, now, after.current_action is Some)
                &&& out.only_statuses()
            },
        }
    }

    /// Whether `after` and `out` are what a tick for stream counters makes
    /// of this bridge: every stream that was due is reported and reset,
    /// up to the first report that the channel did not accept.
    pub open spec fn ticks(self, after: BridgeView, out: OutputView) -> bool {
        &&& out.statuses == Seq::<PackageView<ActionResponseView>>::empty()
        &&& out.data is None
        &&& match out.rejected_metrics {
            None => after == (BridgeView {
                streams: self.streams.reported_upto(self.streams.streams.len() as int),
                ..self
            }),
            Some(e) => exists|k: int|
                0 <= k < self.streams.streams.len() && self.streams.metrics_due(k) && e.message()@
                    == self.streams.streams[k].metrics && after == (BridgeView {
                    streams: #[trigger] self.streams.reported_upto(k),
                    ..self
                }),
        }
    }

    /// Whether `after` and `out` are what one turn of the bridge on
    /// `input` at `now` makes of it. Each input is handled on its own;
    /// the applications' answers show in `after` and `out`.
    pub open spec fn steps(self, input: Input, now: u64, after: BridgeView, out: OutputView) -> bool {
        match input {
            Input::Action(action) => {
                &&& (after, out.statuses) == self.on_action(
                    action@,
                    now,
                    self.current_action is None && after.current_action is Some,
                )
                &&& out.only_statuses()
            },
            Input::Event(event) => self.handles(event, now, after, out),
            Input::ActionTimeout => {
                &&& (after, out.statuses) == self.on_timeout(now)
                &&& out.only_statuses()
            },
            Input::StreamTimeout => {
                &&& after == (BridgeView { streams: self.streams.on_timeout(now).0, ..self })
                &&& out == (OutputView { data: self.streams.on_timeout(now).1, ..OutputView::nothing() })
            },
            Input::MetricsTick => self.ticks(after, out),
        }
    }
}

/// The orchestrator. It owns the routes, the action in flight, the status
/// stream and the telemetry streams; every change to them is one call of a
/// handler below. Time is handed in by the caller, in milliseconds since
/// the epoch.
#[derive(Debug)]
pub struct Bridge {
    config: Config,
    action_status: Stream<ActionResponse>,
    action_routes: Table<ActionRouter>,
    current_action: Option<CurrentAction>,
    streams: Streams,
}

impl View for Bridge {
    type V = BridgeView;

    closed spec fn view(&self) -> BridgeView {
        BridgeView {
            ignore_actions_if_no_clients: self.config.ignore_actions_if_no_clients,
            redirections: self.config.action_redirections@.map_values(|s: String| s@),
            routes: self.action_routes@,
            action_status: self.action_status@,
            current_action: current_view(self.current_action),
            streams: self.streams@,
        }
    }
}

impl Bridge {
    /// A bridge set up with `config`: no route, no action in flight, one
    /// empty stream per configured name. Responses go through
    /// `action_status`; stream counters are reported on `metrics_tx`.
    pub fn new(
        config: Config,
        metrics_tx: flume::Sender<StreamMetrics>,
        action_status: Stream<ActionResponse>,
    ) -> (bridge: Bridge)
        ensures
            bridge@.ignore_actions_if_no_clients == config.ignore_actions_if_no_clients,
            bridge@.redirections == config.action_redirections@.map_values(|s: String| s@),
            bridge@.routes == Map::<Seq<char>, ActionRouter>::empty(),
            bridge@.action_status == action_status@,
            bridge@.current_action is None,
            bridge@.streams.project_id == config.project_id@,
            bridge@.streams.device_id == config.device_id@,
            bridge@.streams.metrics_tx == metrics_tx,
            bridge@.streams.configured == config.streams.keys().len(),
            bridge@.streams.streams.len() == config.streams.keys().len(),
            forall|i: int| 0 <= i < bridge@.streams.streams.len() ==> #[trigger] bridge@.streams.streams[i]
                == StreamView::<PayloadView>::new(
                config.streams.keys()[i],
                config.streams.values()[i].topic@,
                config.streams.values()[i].buf_size,
                config.streams.values()[i].flush_period,
            ),
            bridge@.streams.timeouts.timers.len() == 0,
            bridge@.streams.wf(),
            bridge@.streams.covered(),
    {
        let streams = Streams::new(&config, metrics_tx);
        Bridge { config, action_status, action_routes: Table::new(), current_action: None, streams }
    }

    /// Forgets the action in flight.
    pub fn clear_current_action(&mut self)
        ensures
            final(self)@ == old(self)@.cleared(),
    {
        self.current_action = None;
    }

    /// What is to be noticed of the way the bridge will handle `input`;
    /// see [`BridgeView::notice`].
    pub fn notice(&self, input: &Input) -> (n: Option<Notice>)
        ensures
            n == self@.notice(*input),
    {
        match input {
            Input::Action(_) => {
                if self.current_action.is_some() {
                    Some(Notice::Busy)
                } else {
                    None
                }
            },
            Input::Event(Event::Data(payload)) => {
                if self.streams.drops(payload.stream.as_str()) {
                    Some(Notice::DroppedPoint)
                } else {
                    None
                }
            },
            Input::Event(Event::ActionResponse(response)) => {
                match &self.current_action {
                    None => Some(Notice::StaleResponse),
                    Some(current) => {
                        if !same_text(&current.id, response.action_id.as_str()) {
                            Some(Notice::StaleResponse)
                        } else if response.is_done() && !self.config.action_redirections.contains_key(
                            current.action.name.as_str(),
                        ) {
                            Some(Notice::MissingRedirection)
                        } else {
                            None
                        }
                    },
                }
            },
            _ => None,
        }
    }

    /// Whether an action is in flight.
    pub fn is_busy(&self) -> (b: bool)
        ensures
            b == (self@.current_action is Some),
    {
        self.current_action.is_some()
    }

    /// The action in flight, if any.
    pub fn current_action(&self) -> (c: &Option<CurrentAction>)
        ensures
            current_view(*c) == self@.current_action,
    {
        &self.current_action
    }

    /// The moment by which the action in flight must be answered.
    pub fn action_deadline(&self) -> (d: Option<u64>)
        ensures
            match d {
                Some(d) => self@.current_action is Some && d == self@.current_action->0.deadline,
                None => self@.current_action is None,
            },
    {
        match &self.current_action {
            Some(current) => Some(current.deadline),
            None => None,
        }
    }

    /// The telemetry streams.
    pub fn streams(&self) -> (s: &Streams)
        ensures
            s@ == self@.streams,
    {
        &self.streams
    }

    /// The buffer of responses on their way to the backend.
    pub fn action_status(&self) -> (s: &Stream<ActionResponse>)
        ensures
            s@ == self@.action_status,
    {
        &self.action_status
    }

    /// Registers `router` under `name`. A route that was registered under
    /// that name is replaced; the action in flight is not touched.
    pub fn register_action_route(&mut self, name: &str, router: ActionRouter)
        ensures
            final(self)@ == old(self)@.register(name@, router),
    {
        self.action_routes.insert(name, router);
    }

    fn record(&mut self, response: ActionResponse, now: u64, out: &mut Vec<Package<ActionResponse>>)
        ensures
            final(self)@ == old(self)@.respond(response@, now).0,
            views(final(out)@) == views(old(out)@) + old(self)@.respond(response@, now).1,
    {
        match self.action_status.fill(response, now) {
            StreamStatus::Flushed(_, package) => {
                out.push(package);
                assert(views(out@) =~= views(old(out)@) + seq![package@]);
            },
            _ => {
                assert(views(out@) =~= views(old(out)@) + Seq::empty());
            },
        }
    }

    /// Finishes an attempt to route `action` at `now`, given what the
    /// application's channel answered: an accepted action is in flight
    /// from now on, with the timeout that the channel's route grants; a
    /// rejected one leaves the bridge as it was.
    pub fn complete_route(
        &mut self,
        action: Action,
        sent: Result<u64, TrySendError<Action>>,
        now: u64,
    ) -> (r: Result<(), Error>)
        ensures
            match sent {
                Ok(timeout) => r is Ok && final(self)@ == (BridgeView {
                    current_action: Some(CurrentActionView::new(action@, now, timeout)),
                    ..old(self)@
                }),
                Err(_) => r matches Err(e) && e@ == ErrorView::UnresponsiveReceiver && final(self)@ == old(
                    self,
                )@,
            },
    {
        match sent {
            Ok(timeout) => {
                self.current_action = Some(CurrentAction::new(action, now, timeout));
                Ok(())
            },
            Err(_) => Err(Error::UnresponsiveReceiver),
        }
    }

    /// Offers `action` to the route of its name, at `now`. Without a
    /// route of that name the result is `NoRoute`, whatever is in flight.
    /// With one, the result is `Busy` while an action of another identity
    /// is in flight, and nothing is offered to the application. Otherwise
    /// the application decides: if it takes the action, the action is in
    /// flight, in place of what was; if its slot is occupied or it is
    /// gone, the result is `UnresponsiveReceiver`. The bridge never waits
    /// for the application, and a refusal leaves it as it was.
    pub fn try_route_action(&mut self, action: Action, now: u64) -> (r: Result<(), Error>)
        ensures
            final(self)@ == old(self)@.try_route(action@, now, r is Ok),
            match r {
                Ok(()) => old(self)@.route_error(action@, true) is None,
                Err(e) => old(self)@.route_error(action@, false) == Some(e@),
            },
            (r matches Err(e) && e@ == ErrorView::NoRoute(action@.name)) <==> !old(self)@.routes.contains_key(
                action@.name,
            ),
            (r matches Err(e) && e@ == ErrorView::Busy) <==> (old(self)@.routes.contains_key(action@.name)
                && old(self)@.occupied_by_other(action@.action_id)),
            r is Ok ==> final(self)@.current_action == Some(
                CurrentActionView::new(action@, now, old(self)@.routes[action@.name].spec_timeout()),
            ),
            r is Err ==> final(self)@ == old(self)@,
    {
        match self.action_routes.get(action.name.as_str()) {
            Some(router) => {
                let busy = match &self.current_action {
                    Some(current) => !same_text(&current.id, action.action_id.as_str()),
                    None => false,
                };
                if busy {
                    return Err(Error::Busy);
                }
                let sent = router.try_send(action.clone());
                self.complete_route(action, sent, now)
            },
            None => Err(Error::NoRoute(action.name)),
        }
    }

    /// Reports that `action` failed with `error`, at `now`, and gives up
    /// the action in flight. The batches that the report completes on the
    /// status stream are appended to `out`.
    pub fn forward_action_error(
        &mut self,
        action: Action,
        error: Error,
        now: u64,
        out: &mut Vec<Package<ActionResponse>>,
    )
        ensures
            final(self)@ == old(self)@.fail(action@.action_id, error@, now).0,
            views(final(out)@) == views(old(out)@) + old(self)@.fail(action@.action_id, error@, now).1,
    {
        let status = ActionResponse::failure(action.action_id.as_str(), error.to_string(), now);
        self.record(status, now, out);
        self.clear_current_action();
    }

    /// Handles an action that the backend sent, at `now`; see
    /// [`BridgeView::on_action`]. What the application answered shows in
    /// the state: the action is in flight afterwards exactly if it was
    /// accepted. The batches of responses that left are handed back.
    pub fn handle_action(&mut self, action: Action, now: u64) -> (out: Vec<Package<ActionResponse>>)
        ensures
            (final(self)@, views(out@)) == old(self)@.on_action(
                action@,
                now,
                old(self)@.current_action is None && final(self)@.current_action is Some,
            ),
    {
        let mut out: Vec<Package<ActionResponse>> = Vec::new();
        if self.current_action.is_some() {
            let status = ActionResponse::failure(action.action_id.as_str(), Error::Busy.to_string(), now);
            self.record(status, now, &mut out);
            return out;
        }
        match self.try_route_action(action.clone(), now) {
            Ok(()) => {
                let response = ActionResponse::progress(action.action_id.as_str(), "Received", 0, now);
                self.record(response, now, &mut out);
            },
            Err(error) => {
                if !self.config.ignore_actions_if_no_clients {
                    self.forward_action_error(action, error, now, &mut out);
                }
            },
        }
        out
    }

    /// Handles a response that an application sent, at `now`; see
    /// [`BridgeView::on_response`]. Where the response hands the action to
    /// another route, what that application answered shows in the state:
    /// an action is in flight afterwards exactly if it was accepted. The
    /// batches of responses that left are handed back.
    pub fn forward_action_response(&mut self, response: ActionResponse, now: u64) -> (out: Vec<
        Package<ActionResponse>,
    >)
        ensures
            (final(self)@, views(out@)) == old(self)@.on_response(
                response@,
                now,
                final(self)@.current_action is Some,
            ),
    {
        let ghost pre = self@;
        let mut out: Vec<Package<ActionResponse>> = Vec::new();
        let current = match self.current_action.take() {
            Some(current) => current,
            None => {
                return out;
            },
        };
        if !same_text(&current.id, response.action_id.as_str()) {
            self.current_action = Some(current);
            return out;
        }
        let is_final = response.is_completed() || response.is_failed();
        let done = response.is_done();
        let carried = match &response.done_response {
            Some(action) => Some(action.clone()),
            None => None,
        };
        self.record(response, now, &mut out);
        let ghost first = views(out@);
        if is_final {
            return out;
        }
        if !done {
            let timeout = match self.action_routes.get(current.action.name.as_str()) {
                Some(router) => router.timeout(),
                None => DEFAULT_TIMEOUT,
            };
            self.current_action = Some(
                CurrentAction { id: current.id, action: current.action, deadline: deadline(now, timeout) },
            );
            return out;
        }
        let target = match self.config.action_redirections.get(current.action.name.as_str()) {
            Some(name) => name.clone(),
            None => {
                let status = ActionResponse::success(current.id.as_str(), now);
                self.record(status, now, &mut out);
                assert(views(out@) =~= first + pre.respond(response@, now).0.respond(
                    ActionResponseView::success(current@.id, now),
                    now,
                ).1);
                return out;
            },
        };
        let action = match carried {
            Some(action) => action,
            None => current.action,
        };
        let forward = action.renamed(target.as_str());
        match self.try_route_action(forward.clone(), now) {
            Ok(()) => {},
            Err(error) => {
                self.forward_action_error(forward, error, now, &mut out);
            },
        }
        out
    }

    /// Handles what an application sent, at `now`; see
    /// [`BridgeView::handles`].
    pub fn handle_event(&mut self, event: Event, now: u64) -> (out: Output)
        ensures
            old(self)@.handles(event, now, final(self)@, out@),
    {
        match event {
            Event::RegisterActionRoute(name, router) => {
                self.register_action_route(name.as_str(), router);
                let out = Output { statuses: Vec::new(), data: None, rejected_metrics: None };
                assert(out@.statuses =~= Seq::empty());
                out
            },
            Event::Data(payload) => {
                let data = self.streams.forward(payload, now);
                let out = Output { statuses: Vec::new(), data, rejected_metrics: None };
                assert(out@.statuses =~= Seq::empty());
                out
            },
            Event::ActionResponse(response) => {
                let statuses = self.forward_action_response(response, now);
                Output { statuses, data: None, rejected_metrics: None }
            },
        }
    }

    /// One turn of the event loop: handles `input`, which arrived at `now`
    /// (milliseconds since the epoch), and hands back what has to leave
    /// the bridge; see [`BridgeView::steps`].
    pub fn step(&mut self, input: Input, now: u64) -> (out: Output)
        ensures
            old(self)@.steps(input, now, final(self)@, out@),
    {
        match input {
            Input::Action(action) => {
                let statuses = self.handle_action(action, now);
                Output { statuses, data: None, rejected_metrics: None }
            },
            Input::Event(event) => self.handle_event(event, now),
            Input::ActionTimeout => {
                let statuses = self.handle_action_timeout(now);
                Output { statuses, data: None, rejected_metrics: None }
            },
            Input::StreamTimeout => {
                let data = match self.handle_stream_timeout(now) {
                    Some((_, package)) => package,
                    None => None,
                };
                let out = Output { statuses: Vec::new(), data, rejected_metrics: None };
                assert(out@.statuses =~= Seq::empty());
                out
            },
            Input::MetricsTick => {
                let rejected_metrics = match self.handle_metrics_tick() {
                    Ok(()) => None,
                    Err(e) => Some(e),
                };
                let out = Output { statuses: Vec::new(), data: None, rejected_metrics };
                assert(out@.statuses =~= Seq::empty());
                out
            },
        }
    }

    /// Polls the flush timers of the telemetry streams at `now`. If the
    /// timer that expires next has expired, it is disarmed and its stream
    /// is flushed: the name of the stream comes back, with its batch if
    /// anything was waiting.
    pub fn handle_stream_timeout(&mut self, now: u64) -> (fired: Option<(String, Option<Package<Payload>>)>)
        ensures
            final(self)@ == (BridgeView { streams: old(self)@.streams.on_timeout(now).0, ..old(self)@ }),
            match fired {
                Some((name, package)) => {
                    &&& old(self)@.streams.timeouts.next(now).1 == Some(name@)
                    &&& option_package_view(package) == old(self)@.streams.on_timeout(now).1
                },
                None => {
                    &&& old(self)@.streams.timeouts.next(now).1 is None
                    &&& old(self)@.streams.on_timeout(now).1 is None
                },
            },
    {
        match self.streams.next_timeout(now) {
            Some(name) => {
                let package = self.streams.flush_stream(name.as_str());
                Some((name, package))
            },
            None => None,
        }
    }

    /// Handles the periodic tick for stream counters; see
    /// [`Streams::check_and_flush_metrics`].
    pub fn handle_metrics_tick(&mut self) -> (r: Result<(), TrySendError<StreamMetrics>>)
        ensures
            match r {
                Ok(()) => final(self)@ == (BridgeView {
                    streams: old(self)@.streams.reported_upto(old(self)@.streams.streams.len() as int),
                    ..old(self)@
                }),
                Err(e) => exists|k: int|
                    0 <= k < old(self)@.streams.streams.len() && old(self)@.streams.metrics_due(k)
                        && e.message()@ == old(self)@.streams.streams[k].metrics && final(self)@ == (BridgeView {
                        streams: #[trigger] old(self)@.streams.reported_upto(k),
                        ..old(self)@
                    }),
            },
    {
        self.streams.check_and_flush_metrics()
    }

    /// The next moment at which a timer of the bridge expires; see
    /// [`BridgeView::next_wakeup`].
    pub fn next_wakeup(&self) -> (d: Option<u64>)
        ensures
            d == self@.next_wakeup(),
    {
        let action = self.action_deadline();
        let stream = self.streams.next_timeout_deadline();
        match (action, stream) {
            (Some(a), Some(b)) => Some(if a <= b { a } else { b }),
            (Some(a), None) => Some(a),
            (None, b) => b,
        }
    }

    /// The milliseconds that the bridge may sleep at `now` before one of
    /// its timers expires: none if a timer has expired already, nothing
    /// at all if no timer is armed.
    pub fn time_to_wakeup(&self, now: u64) -> (d: Option<u64>)
        ensures
            d == match self@.next_wakeup() {
                Some(at) => Some(if at > now { (at - now) as u64 } else { 0 }),
                None => None,
            },
    {
        match self.next_wakeup() {
            Some(at) => Some(at.saturating_sub(now)),
            None => None,
        }
    }

    /// Handles the deadline of the action in flight, at `now`; see
    /// [`BridgeView::on_timeout`]. Before the deadline, and without an
    /// action in flight, nothing happens.
    pub fn handle_action_timeout(&mut self, now: u64) -> (out: Vec<Package<ActionResponse>>)
        ensures
            (final(self)@, views(out@)) == old(self)@.on_timeout(now),
    {
        let mut out: Vec<Package<ActionResponse>> = Vec::new();
        let due = match &self.current_action {
            Some(current) => current.deadline <= now,
            None => false,
        };
        if due {
            match self.current_action.take() {
                Some(current) => {
                    self.forward_action_error(current.action, Error::ActionTimeout, now, &mut out);
                },
                None => {},
            }
        }
        out
    }
}

} // verus!
