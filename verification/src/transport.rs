//! The client half of the protocol: request correlation, notification subscriptions, the queue of
//! server-to-client requests, and what closing does to all of them.
//!
//! [`Peer`] holds the state and decides; it reads and writes nothing itself. Lines from the
//! runtime go in through [`Peer::receive`], lines for the runtime come out of the methods that
//! send.

use std::collections::VecDeque;

use vstd::prelude::*;

use crate::client::{IncomingRequest, Notification};
#[allow(unused_imports)]
use crate::client::{IncomingRequestView, NotificationView};
use crate::error::SdkError;
#[allow(unused_imports)]
use crate::error::{closed_view, opt_error, report, SdkErrorView};
use crate::frames::{error_line, notification_line, read_line, request_line, response_line, Frame};
#[allow(unused_imports)]
use crate::frames::{
    carries, carries_error, error_frame, line_frame, notification_frame, outcome_view, request_frame, response_frame,
    FrameView, OutcomeView,
};
use crate::json::Json;
#[allow(unused_imports)]
use crate::json::{opt_tree, JsonView, ParsedView};
use crate::lineage::Lineage;
#[allow(unused_imports)]
use crate::lineage::concerns_tree;
#[allow(unused_imports)]
use crate::text::texts;
use crate::text_map::TextMap;
#[allow(unused_imports)]
use crate::text_map::text_values;
use crate::trusted::ident::new_uuid;
#[allow(unused_imports)]
use crate::trusted::ident::hyphenated_form;
#[allow(unused_imports)]
use crate::trusted::json::{integral_within, parsed_text, reader_depth};

verus! {

/// Which notifications a subscription receives.
#[derive(Debug, PartialEq)]
pub enum NotificationFilter {
    /// Every notification.
    All,
    /// Those of one session and its descendants.
    SessionTree(String),
    /// Those that a predicate of the caller accepts.
    Custom,
}

/// The mathematical value of a [`NotificationFilter`].
pub enum FilterView {
    /// See [`NotificationFilter::All`].
    All,
    /// See [`NotificationFilter::SessionTree`].
    SessionTree(Seq<char>),
    /// See [`NotificationFilter::Custom`].
    Custom,
}

impl View for NotificationFilter {
    type V = FilterView;

    open spec fn view(&self) -> FilterView {
        match *self {
            NotificationFilter::All => FilterView::All,
            NotificationFilter::SessionTree(root) => FilterView::SessionTree(root@),
            NotificationFilter::Custom => FilterView::Custom,
        }
    }
}

/// What a predicate of the caller said of one notification.
#[derive(Debug, PartialEq)]
pub enum Judgement {
    /// The predicate accepted it.
    Match,
    /// The predicate rejected it.
    Skip,
    /// The predicate panicked with this message.
    Panicked(String),
}

/// The mathematical value of a [`Judgement`].
pub enum JudgementView {
    /// See [`Judgement::Match`].
    Match,
    /// See [`Judgement::Skip`].
    Skip,
    /// See [`Judgement::Panicked`].
    Panicked(Seq<char>),
}

impl View for Judgement {
    type V = JudgementView;

    open spec fn view(&self) -> JudgementView {
        match *self {
            Judgement::Match => JudgementView::Match,
            Judgement::Skip => JudgementView::Skip,
            Judgement::Panicked(message) => JudgementView::Panicked(message@),
        }
    }
}

/// The queue of one subscription: notifications not yet taken, and the error that ended it.
pub struct InboxView {
    /// Notifications not yet taken, oldest first.
    pub queue: Seq<NotificationView>,
    /// The error that follows them, once the subscription has ended.
    pub ended: Option<SdkErrorView>,
    /// A later queue receives in its place: it is drained, and then it ends.
    pub superseded: bool,
}

/// A registered subscription.
pub struct SubscriberView {
    /// Which notifications it receives.
    pub filter: FilterView,
    /// What it has received.
    pub inbox: InboxView,
}

impl InboxView {
    /// A queue that has received nothing.
    pub open spec fn fresh() -> InboxView {
        InboxView { queue: seq![], ended: None, superseded: false }
    }

    /// The queue may receive another notification.
    pub open spec fn live(self) -> bool {
        self.ended is None && !self.superseded
    }

    /// The queue with one more notification, where it takes any.
    pub open spec fn with(self, notification: NotificationView) -> InboxView {
        if self.live() {
            InboxView { queue: self.queue.push(notification), ..self }
        } else {
            self
        }
    }

    /// The queue ended by an error; the first error stays.
    pub open spec fn end(self, error: SdkErrorView) -> InboxView {
        match self.ended {
            Some(_) => self,
            None => InboxView { ended: Some(error), ..self },
        }
    }

    /// The queue without its oldest notification. A superseded one that is drained ends with the
    /// given error.
    pub open spec fn rest(self, closing: SdkErrorView) -> InboxView {
        if self.queue.len() > 0 {
            InboxView { queue: self.queue.drop_first(), ..self }
        } else if self.superseded {
            self.end(closing)
        } else {
            self
        }
    }

    /// What taking from the queue gives: the oldest notification, and the error once there is
    /// none.
    pub open spec fn front(self, closing: SdkErrorView) -> DeliveryView {
        if self.queue.len() > 0 {
            DeliveryView::Ready(self.queue[0])
        } else {
            match self.rest(closing).ended {
                Some(error) => DeliveryView::Ended(error),
                None => DeliveryView::Waiting,
            }
        }
    }
}

/// What a subscription has to give.
#[derive(Debug, PartialEq)]
pub enum Delivery {
    /// The oldest notification not yet taken.
    Ready(Notification),
    /// The subscription is over; it stays so.
    Ended(SdkError),
    /// Nothing yet.
    Waiting,
}

/// The mathematical value of a [`Delivery`].
pub enum DeliveryView {
    /// See [`Delivery::Ready`].
    Ready(NotificationView),
    /// See [`Delivery::Ended`].
    Ended(SdkErrorView),
    /// See [`Delivery::Waiting`].
    Waiting,
}

impl View for Delivery {
    type V = DeliveryView;

    open spec fn view(&self) -> DeliveryView {
        match *self {
            Delivery::Ready(notification) => DeliveryView::Ready(notification@),
            Delivery::Ended(error) => DeliveryView::Ended(error@),
            Delivery::Waiting => DeliveryView::Waiting,
        }
    }
}

/// The contents of a sequence of notifications.
pub open spec fn notification_views(notifications: Seq<Notification>) -> Seq<NotificationView> {
    notifications.map_values(|notification: Notification| notification@)
}

/// One item of the queue of server-to-client requests.
enum Incoming {
    Request(IncomingRequest),
    Closed(SdkError),
}

/// What one item of the queue of server-to-client requests is.
pub enum IncomingView {
    /// A request.
    Request(IncomingRequestView),
    /// The transport closed here, with this error.
    Closed(SdkErrorView),
}

impl View for Incoming {
    type V = IncomingView;

    closed spec fn view(&self) -> IncomingView {
        match *self {
            Incoming::Request(request) => IncomingView::Request(request@),
            Incoming::Closed(error) => IncomingView::Closed(error@),
        }
    }
}

/// The contents of the queue of server-to-client requests.
spec fn incoming_views(queue: Seq<Incoming>) -> Seq<IncomingView> {
    queue.map_values(|item: Incoming| item@)
}

/// The queue of one subscription.
struct Inbox {
    queue: VecDeque<Notification>,
    ended: Option<SdkError>,
    superseded: bool,
}

impl View for Inbox {
    type V = InboxView;

    closed spec fn view(&self) -> InboxView {
        InboxView {
            queue: notification_views(self.queue@),
            ended: opt_error(self.ended),
            superseded: self.superseded,
        }
    }
}

impl Inbox {
    fn new() -> (inbox: Self)
        ensures
            inbox@ == InboxView::fresh(),
    {
        let inbox = Inbox { queue: VecDeque::new(), ended: None, superseded: false };
        assert(inbox@.queue =~= seq![]);
        inbox
    }

    fn put(&mut self, notification: Notification)
        ensures
            final(self)@ == old(self)@.with(notification@),
    {
        if self.ended.is_none() && !self.superseded {
            self.queue.push_back(notification);
            assert(self@.queue =~= old(self)@.queue.push(notification@));
        }
    }

    fn close(&mut self, error: &SdkError)
        ensures
            final(self)@ == old(self)@.end(error@),
    {
        if self.ended.is_none() {
            self.ended = Some(error.clone());
        }
    }

    fn take(&mut self, closing: &SdkError) -> (delivery: Delivery)
        ensures
            delivery@ == old(self)@.front(closing@),
            final(self)@ == old(self)@.rest(closing@),
    {
        if let Some(notification) = self.queue.pop_front() {
            assert(self@.queue =~= old(self)@.queue.drop_first());
            return Delivery::Ready(notification);
        }
        if self.superseded {
            self.close(closing);
        }
        match &self.ended {
            Some(error) => Delivery::Ended(error.clone()),
            None => Delivery::Waiting,
        }
    }
}

/// A registered subscription.
struct Slot {
    id: u64,
    filter: NotificationFilter,
    inbox: Inbox,
}

impl View for Slot {
    type V = SubscriberView;

    closed spec fn view(&self) -> SubscriberView {
        SubscriberView { filter: self.filter@, inbox: self.inbox@ }
    }
}

/// There is a slot with this id.
spec fn has_slot(slots: Seq<Slot>, id: u64) -> bool {
    exists|i: int| 0 <= i < slots.len() && #[trigger] slots[i].id == id
}

/// The place of the slot with this id.
spec fn slot_at(slots: Seq<Slot>, id: u64) -> int {
    choose|i: int| 0 <= i < slots.len() && #[trigger] slots[i].id == id
}

/// No two slots share an id.
spec fn distinct_slots(slots: Seq<Slot>) -> bool {
    forall|i: int, j: int|
        0 <= i < slots.len() && 0 <= j < slots.len() && #[trigger] slots[i].id == #[trigger] slots[j].id
            ==> i == j
}

/// The subscriptions by id.
spec fn slots_map(slots: Seq<Slot>) -> Map<u64, SubscriberView> {
    Map::new(|id: u64| has_slot(slots, id), |id: u64| slots[slot_at(slots, id)]@)
}

/// A slot is found under its id.
proof fn lemma_slot(slots: Seq<Slot>, i: int)
    requires
        distinct_slots(slots),
        0 <= i < slots.len(),
    ensures
        slots_map(slots).contains_key(slots[i].id),
        slots_map(slots)[slots[i].id] == slots[i]@,
        slot_at(slots, slots[i].id) == i,
{
    assert(has_slot(slots, slots[i].id));
}

/// The subscriptions by id are the map in which each slot stands under its id, and nothing else.
proof fn lemma_slots_map(slots: Seq<Slot>, goal: Map<u64, SubscriberView>)
    requires
        distinct_slots(slots),
        forall|i: int|
            0 <= i < slots.len() ==> goal.contains_key((#[trigger] slots[i]).id)
                && goal[slots[i].id] == slots[i]@,
        forall|id: u64| #[trigger] goal.contains_key(id) ==> has_slot(slots, id),
    ensures
        slots_map(slots) == goal,
{
    assert forall|id: u64| slots_map(slots).contains_key(id) implies goal.contains_key(id)
        && slots_map(slots)[id] == goal[id] by {
        let i = slot_at(slots, id);
        assert(slots[i].id == id);
        lemma_slot(slots, i);
    }
    assert(slots_map(slots) =~= goal);
}

/// Slots that keep their ids stand for the same subscriptions.
proof fn lemma_same_ids(before: Seq<Slot>, after: Seq<Slot>)
    requires
        distinct_slots(before),
        before.len() == after.len(),
        forall|i: int| 0 <= i < after.len() ==> (#[trigger] after[i]).id == before[i].id,
    ensures
        distinct_slots(after),
        forall|id: u64| #[trigger] has_slot(after, id) <==> has_slot(before, id),
{
    assert forall|id: u64| #[trigger] has_slot(after, id) <==> has_slot(before, id) by {
        if has_slot(before, id) {
            assert(after[slot_at(before, id)].id == id);
        }
        if has_slot(after, id) {
            assert(before[slot_at(after, id)].id == id);
        }
    }
}

/// Adds a slot under an id that no other has.
fn add_slot(slots: &mut Vec<Slot>, slot: Slot)
    requires
        distinct_slots(old(slots)@),
        !slots_map(old(slots)@).contains_key(slot.id),
    ensures
        distinct_slots(final(slots)@),
        slots_map(final(slots)@) == slots_map(old(slots)@).insert(slot.id, slot@),
{
    let ghost before = slots@;
    let ghost added = slot;
    slots.push(slot);
    proof {
        let ours = slots@;
        let last = before.len() as int;
        let goal = slots_map(before).insert(added.id, added@);
        assert forall|i: int| 0 <= i < ours.len() implies goal.contains_key(
            (#[trigger] ours[i]).id,
        ) && goal[ours[i].id] == ours[i]@ by {
            if i < last {
                lemma_slot(before, i);
            }
        }
        assert(distinct_slots(ours)) by {
            assert forall|i: int| 0 <= i < last implies (#[trigger] ours[i]).id != added.id by {
                lemma_slot(before, i);
            }
        }
        assert forall|id: u64| #[trigger] goal.contains_key(id) implies has_slot(ours, id) by {
            if id == added.id {
                assert(ours[last].id == id);
            } else {
                assert(ours[slot_at(before, id)].id == id);
            }
        }
        lemma_slots_map(ours, goal);
    }
}

/// The queue of notifications that no subscription matched.
pub struct UnmatchedView {
    /// The id of the subscription that reads it.
    pub id: u64,
    /// What it has received.
    pub inbox: InboxView,
}

/// What a [`Peer`] holds.
pub struct PeerView {
    /// The method of each request that awaits its response, by request id.
    pub pending: Map<Seq<char>, Seq<char>>,
    /// The subscriptions, by id.
    pub subscribers: Map<u64, SubscriberView>,
    /// The queue of notifications that no subscription matched, once it is open.
    pub unmatched: Option<UnmatchedView>,
    /// Server-to-client requests not yet taken, oldest first, and among them the close.
    pub requests: Seq<IncomingView>,
    /// The error that closed the transport.
    pub closed: Option<SdkErrorView>,
    /// The deadline of requests that name none, in nanoseconds.
    pub request_timeout: Option<u64>,
    /// The id that the next subscription gets.
    pub next_id: u64,
}

/// What a predicate said of a notification, among all judgements on it; no judgement is a rejection.
pub open spec fn judgement_in(judgements: Seq<(u64, Judgement)>, id: u64) -> JudgementView
    decreases judgements.len(),
{
    if judgements.len() == 0 {
        JudgementView::Skip
    } else if judgements[0].0 == id {
        judgements[0].1@
    } else {
        judgement_in(judgements.drop_first(), id)
    }
}

/// What a subscription's filter says of a notification. One that receives nothing any more is
/// not asked.
pub open spec fn judged(
    subscriber: SubscriberView,
    id: u64,
    notification: NotificationView,
    parents: Map<Seq<char>, Seq<char>>,
    judgements: Seq<(u64, Judgement)>,
) -> JudgementView {
    if !subscriber.inbox.live() {
        JudgementView::Skip
    } else {
        match subscriber.filter {
            FilterView::All => JudgementView::Match,
            FilterView::SessionTree(root) => if concerns_tree(parents, root, notification) {
                JudgementView::Match
            } else {
                JudgementView::Skip
            },
            FilterView::Custom => judgement_in(judgements, id),
        }
    }
}

/// A subscription after its filter has spoken: a match queues the notification, and a panic ends
/// the subscription with a protocol error that carries the panic message.
pub open spec fn after_judgement(
    subscriber: SubscriberView,
    judgement: JudgementView,
    notification: NotificationView,
) -> SubscriberView {
    match judgement {
        JudgementView::Match => SubscriberView {
            inbox: subscriber.inbox.with(notification),
            ..subscriber
        },
        JudgementView::Skip => subscriber,
        JudgementView::Panicked(message) => SubscriberView {
            inbox: subscriber.inbox.end(SdkErrorView::Protocol { message }),
            ..subscriber
        },
    }
}

/// What a received line came to.
pub enum ReceivedView {
    /// See [`Received::Nothing`].
    Nothing,
    /// See [`Received::Completed`].
    Completed { id: Seq<char>, outcome: OutcomeView },
    /// See [`Received::Requested`].
    Requested,
    /// See [`Received::Notification`].
    Notification(NotificationView),
}

impl PeerView {
    /// A transport on which nothing has happened.
    pub open spec fn fresh(request_timeout: Option<u64>) -> PeerView {
        PeerView {
            pending: Map::empty(),
            subscribers: Map::empty(),
            unmatched: None,
            requests: seq![],
            closed: None,
            request_timeout,
            next_id: 1,
        }
    }

    /// What every reachable state satisfies: subscription ids are taken in order from 1, the
    /// unmatched queue has one of its own and ends exactly as the transport does, nothing awaits or
    /// receives notifications once the transport is closed, and the request queue holds the closing
    /// error at most once.
    pub open spec fn consistent(self) -> bool {
        &&& self.next_id > 0
        &&& forall|id: u64| #[trigger] self.subscribers.contains_key(id) ==> 0 < id < self.next_id
        &&& self.unmatched matches Some(unmatched) ==> 0 < unmatched.id < self.next_id
            && !self.subscribers.contains_key(unmatched.id) && !unmatched.inbox.superseded
            && unmatched.inbox.ended == self.closed
        &&& forall|i: int|
            0 <= i < self.requests.len() ==> (#[trigger] self.requests[i] matches IncomingView::Closed(
                error,
            ) ==> self.closed == Some(error))
        &&& forall|i: int, j: int|
            0 <= i < self.requests.len() && 0 <= j < self.requests.len() && #[trigger] self.requests[i]
                is Closed && #[trigger] self.requests[j] is Closed ==> i == j
        &&& self.closed is Some ==> {
            &&& self.pending == Map::<Seq<char>, Seq<char>>::empty()
            &&& forall|id: u64| #[trigger]
                self.subscribers.contains_key(id) ==> self.subscribers[id].inbox.ended is Some
        }
    }

    /// The error that a use of the closed transport meets.
    pub open spec fn closed_or(self, reason: Seq<char>) -> SdkErrorView {
        match self.closed {
            Some(error) => error,
            None => closed_view(reason, None, seq![]),
        }
    }

    /// The state with a request awaiting its response.
    pub open spec fn awaiting(self, id: Seq<char>, method: Seq<char>) -> PeerView {
        PeerView { pending: self.pending.insert(id, method), ..self }
    }

    /// The state in which a request awaits no more.
    pub open spec fn settled(self, id: Seq<char>) -> PeerView {
        PeerView { pending: self.pending.remove(id), ..self }
    }

    /// The state after a received line, and what the line came to.
    pub open spec fn received(self, line: Seq<char>) -> (PeerView, ReceivedView) {
        match line_frame(line) {
            FrameView::Ignored => (self, ReceivedView::Nothing),
            FrameView::Request(request) => (
                PeerView { requests: self.requests.push(IncomingView::Request(request)), ..self },
                ReceivedView::Requested,
            ),
            FrameView::Response { key, outcome } => if self.pending.contains_key(key) {
                (self.settled(key), ReceivedView::Completed { id: key, outcome })
            } else {
                (self, ReceivedView::Nothing)
            },
            FrameView::Notification(notification) => (
                self,
                ReceivedView::Notification(notification),
            ),
        }
    }

    /// Some subscription matches a notification.
    pub open spec fn matched(
        self,
        notification: NotificationView,
        parents: Map<Seq<char>, Seq<char>>,
        judgements: Seq<(u64, Judgement)>,
    ) -> bool {
        exists|id: u64| #[trigger]
            self.subscribers.contains_key(id) && judged(
                self.subscribers[id],
                id,
                notification,
                parents,
                judgements,
            ) is Match
    }

    /// The state after a notification has been handed out: each matching subscription has
    /// received it once, and the unmatched queue has when none matched.
    pub open spec fn delivered(
        self,
        notification: NotificationView,
        parents: Map<Seq<char>, Seq<char>>,
        judgements: Seq<(u64, Judgement)>,
    ) -> PeerView {
        PeerView {
            subscribers: Map::new(
                |id: u64| self.subscribers.contains_key(id),
                |id: u64|
                    after_judgement(
                        self.subscribers[id],
                        judged(self.subscribers[id], id, notification, parents, judgements),
                        notification,
                    ),
            ),
            unmatched: match self.unmatched {
                Some(unmatched) => Some(
                    if self.matched(notification, parents, judgements) {
                        unmatched
                    } else {
                        UnmatchedView { inbox: unmatched.inbox.with(notification), ..unmatched }
                    },
                ),
                None => None,
            },
            ..self
        }
    }

    /// The state after the transport has closed: the first error stays, nothing awaits, every
    /// subscription ends with the error, and the error is queued behind the requests.
    pub open spec fn failed(self, error: SdkErrorView) -> PeerView {
        match self.closed {
            Some(_) => self,
            None => PeerView {
                pending: Map::empty(),
                subscribers: self.subscribers.map_values(
                    |subscriber: SubscriberView|
                        SubscriberView { inbox: subscriber.inbox.end(error), ..subscriber },
                ),
                unmatched: match self.unmatched {
                    Some(unmatched) => Some(
                        UnmatchedView { inbox: unmatched.inbox.end(error), ..unmatched },
                    ),
                    None => None,
                },
                requests: self.requests.push(IncomingView::Closed(error)),
                closed: Some(error),
                ..self
            },
        }
    }

    /// This subscription reads the unmatched queue.
    pub open spec fn reads_unmatched(self, id: u64) -> bool {
        self.unmatched matches Some(unmatched) && unmatched.id == id
    }

    /// What taking from a subscription gives.
    pub open spec fn front(self, id: u64) -> DeliveryView {
        let closing = self.closed_or("DeepSeek Harness runtime closed"@);
        if self.reads_unmatched(id) {
            self.unmatched->0.inbox.front(closing)
        } else if self.subscribers.contains_key(id) {
            self.subscribers[id].inbox.front(closing)
        } else {
            DeliveryView::Ended(closing)
        }
    }

    /// The state after taking from a subscription.
    pub open spec fn taken(self, id: u64) -> PeerView {
        let closing = self.closed_or("DeepSeek Harness runtime closed"@);
        if self.reads_unmatched(id) {
            let unmatched = self.unmatched->0;
            PeerView {
                unmatched: Some(UnmatchedView { inbox: unmatched.inbox.rest(closing), ..unmatched }),
                ..self
            }
        } else if self.subscribers.contains_key(id) {
            let subscriber = self.subscribers[id];
            PeerView {
                subscribers: self.subscribers.insert(
                    id,
                    SubscriberView { inbox: subscriber.inbox.rest(closing), ..subscriber },
                ),
                ..self
            }
        } else {
            self
        }
    }
}

/// The queue of notifications that no subscription matched.
struct Unmatched {
    id: u64,
    inbox: Inbox,
}

impl View for Unmatched {
    type V = UnmatchedView;

    closed spec fn view(&self) -> UnmatchedView {
        UnmatchedView { id: self.id, inbox: self.inbox@ }
    }
}

/// The state of the transport.
pub struct Peer {
    pending: TextMap<String>,
    slots: Vec<Slot>,
    unmatched: Option<Unmatched>,
    requests: VecDeque<Incoming>,
    closed: Option<SdkError>,
    request_timeout: Option<u64>,
    next_id: u64,
}

impl View for Peer {
    type V = PeerView;

    closed spec fn view(&self) -> PeerView {
        PeerView {
            pending: text_values(self.pending@),
            subscribers: slots_map(self.slots@),
            unmatched: match self.unmatched {
                Some(unmatched) => Some(unmatched@),
                None => None,
            },
            requests: incoming_views(self.requests@),
            closed: opt_error(self.closed),
            request_timeout: self.request_timeout,
            next_id: self.next_id,
        }
    }
}

/// A request on its way to the runtime.
#[derive(Debug, PartialEq)]
pub struct OutgoingRequest {
    /// The id that its response will carry.
    pub id: String,
    /// The line to write, without its end of line.
    pub line: String,
    /// How long to wait for the response, in nanoseconds; `None` waits indefinitely.
    pub timeout: Option<u64>,
}

/// What a received line came to.
#[derive(Debug, PartialEq)]
pub enum Received {
    /// Nothing: no frame, or a response that nothing awaits.
    Nothing,
    /// A request has got its response.
    Completed {
        /// The id of the request.
        id: String,
        /// What it came to.
        outcome: Result<Json, SdkError>,
    },
    /// A server-to-client request was queued.
    Requested,
    /// A notification, to be handed out with [`Peer::deliver`].
    Notification(Notification),
}

impl View for Received {
    type V = ReceivedView;

    open spec fn view(&self) -> ReceivedView {
        match *self {
            Received::Nothing => ReceivedView::Nothing,
            Received::Completed { id, outcome } => ReceivedView::Completed {
                id: id@,
                outcome: outcome_view(outcome),
            },
            Received::Requested => ReceivedView::Requested,
            Received::Notification(notification) => ReceivedView::Notification(notification@),
        }
    }
}

/// What was decided of a request to send: refused on a closed transport, and awaited otherwise.
pub open spec fn request_sent(
    before: PeerView,
    after: PeerView,
    method: Seq<char>,
    params: Option<JsonView>,
    timeout: Option<u64>,
    result: Result<OutgoingRequest, SdkError>,
) -> bool {
    match before.closed {
        Some(error) => result matches Err(refused) && refused@ == error && after == before,
        None => {
            &&& result matches Ok(request)
            &&& carries(request.line@, request_frame(request.id@, method, params))
            &&& request.timeout == timeout
            &&& after == before.awaiting(request.id@, method)
        },
    }
}

/// What was decided of another frame to send: refused on a closed transport, and written
/// otherwise.
pub open spec fn frame_sent(
    state: PeerView,
    frame: JsonView,
    result: Result<String, SdkError>,
) -> bool {
    match state.closed {
        Some(error) => result matches Err(refused) && refused@ == error,
        None => result matches Ok(line) && carries(line@, frame),
    }
}

/// The judgement on one subscription among all judgements.
fn find_judgement(judgements: &Vec<(u64, Judgement)>, id: u64) -> (judgement: &Judgement)
    ensures
        judgement@ == judgement_in(judgements@, id),
{
    let mut i: usize = 0;
    assert(judgements@.skip(0) =~= judgements@);
    while i < judgements.len()
        invariant
            i <= judgements@.len(),
            judgement_in(judgements@, id) == judgement_in(judgements@.skip(i as int), id),
        decreases judgements@.len() - i,
    {
        assert(judgements@.skip(i as int).drop_first() =~= judgements@.skip(i + 1));
        if judgements[i].0 == id {
            return &judgements[i].1;
        }
        i += 1;
    }
    &Judgement::Skip
}

impl Slot {
    /// What this slot's filter says of a notification.
    fn judge(
        &self,
        notification: &Notification,
        lineage: &Lineage,
        judgements: &Vec<(u64, Judgement)>,
    ) -> (judgement: Judgement)
        ensures
            judgement@ == judged(self@, self.id, notification@, lineage@, judgements@),
    {
        if self.inbox.ended.is_some() || self.inbox.superseded {
            return Judgement::Skip;
        }
        match &self.filter {
            NotificationFilter::All => Judgement::Match,
            NotificationFilter::SessionTree(root) => if lineage.concerns(
                root.as_str(),
                notification,
            ) {
                Judgement::Match
            } else {
                Judgement::Skip
            },
            NotificationFilter::Custom => match find_judgement(judgements, self.id) {
                Judgement::Match => Judgement::Match,
                Judgement::Skip => Judgement::Skip,
                Judgement::Panicked(message) => Judgement::Panicked(message.clone()),
            },
        }
    }

    /// Lets the slot's filter speak on a notification, and acts on it.
    fn offer(
        &mut self,
        notification: &Notification,
        lineage: &Lineage,
        judgements: &Vec<(u64, Judgement)>,
    ) -> (matched: bool)
        ensures
            final(self).id == old(self).id,
            final(self)@ == after_judgement(
                old(self)@,
                judged(old(self)@, old(self).id, notification@, lineage@, judgements@),
                notification@,
            ),
            matched == (judged(old(self)@, old(self).id, notification@, lineage@, judgements@)
                is Match),
    {
        match self.judge(notification, lineage, judgements) {
            Judgement::Match => {
                self.inbox.put(notification.clone());
                true
            },
            Judgement::Skip => false,
            Judgement::Panicked(message) => {
                self.inbox.close(&SdkError::Protocol { message });
                false
            },
        }
    }
}

impl Peer {
    /// The state is one that the methods lead to.
    pub closed spec fn wf(self) -> bool {
        distinct_slots(self.slots@) && self@.consistent()
    }

    /// A transport on which nothing has happened yet.
    pub fn new(request_timeout: Option<u64>) -> (peer: Self)
        ensures
            peer.wf(),
            peer@ == PeerView::fresh(request_timeout),
    {
        let peer = Peer {
            pending: TextMap::new(),
            slots: Vec::new(),
            unmatched: None,
            requests: VecDeque::new(),
            closed: None,
            request_timeout,
            next_id: 1,
        };
        assert(peer@.pending =~= Map::empty());
        assert(peer@.subscribers =~= Map::empty());
        assert(peer@.requests =~= seq![]);
        peer
    }

    /// The error that closed the transport.
    pub fn closed_error(&self) -> (error: Option<SdkError>)
        ensures
            opt_error(error) == self@.closed,
    {
        match &self.closed {
            Some(error) => Some(error.clone()),
            None => None,
        }
    }

    /// The error that a use of the closed transport meets.
    fn closed_or(&self, reason: &str) -> (error: SdkError)
        ensures
            error@ == self@.closed_or(reason@),
    {
        match self.closed_error() {
            Some(error) => error,
            None => {
                let tail: Vec<String> = Vec::new();
                assert(texts(tail@) =~= seq![]);
                SdkError::transport_closed(reason, None, &tail)
            },
        }
    }

    /// Sends a request under a fresh id, with the configured deadline.
    pub fn request(&mut self, method: &str, params: Option<Json>) -> (result: Result<
        OutgoingRequest,
        SdkError,
    >)
        requires
            old(self).wf(),
        ensures
            final(self).wf(),
            request_sent(
                old(self)@,
                final(self)@,
                method@,
                opt_tree(params),
                old(self)@.request_timeout,
                result,
            ),
            result matches Ok(request) ==> hyphenated_form(request.id@),
    {
        let timeout = self.request_timeout;
        self.request_with_timeout(method, params, timeout)
    }

    /// Sends a request under a fresh id, with an explicit deadline; `None` waits indefinitely.
    pub fn request_with_timeout(
        &mut self,
        method: &str,
        params: Option<Json>,
        timeout: Option<u64>,
    ) -> (result: Result<OutgoingRequest, SdkError>)
        requires
            old(self).wf(),
        ensures
            final(self).wf(),
            request_sent(
                old(self)@,
                final(self)@,
                method@,
                opt_tree(params),
                timeout,
                result,
            ),
            result matches Ok(request) ==> hyphenated_form(request.id@),
    {
        self.request_as(new_uuid(), method, params, timeout)
    }

    /// Sends a request under a given id.
    pub fn request_as(
        &mut self,
        id: String,
        method: &str,
        params: Option<Json>,
        timeout: Option<u64>,
    ) -> (result: Result<OutgoingRequest, SdkError>)
        requires
            old(self).wf(),
        ensures
            final(self).wf(),
            request_sent(
                old(self)@,
                final(self)@,
                method@,
                opt_tree(params),
                timeout,
                result,
            ),
            result matches Ok(request) ==> request.id@ == id@,
    {
        if let Some(error) = self.closed_error() {
            return Err(error);
        }
        let line = request_line(id.as_str(), method, params);
        self.pending.insert(id.clone(), method.to_owned());
        assert(self@.pending =~= old(self)@.pending.insert(id@, method@));
        Ok(OutgoingRequest { id, line, timeout })
    }

    /// Sends a notification.
    pub fn notify(&self, method: &str, params: Option<Json>) -> (result: Result<String, SdkError>)
        ensures
            frame_sent(self@, notification_frame(method@, opt_tree(params)), result),
    {
        if let Some(error) = self.closed_error() {
            return Err(error);
        }
        Ok(notification_line(method, params))
    }

    /// Answers a server-to-client request with a result.
    pub fn respond(&self, id: &Json, result: Json) -> (sent: Result<String, SdkError>)
        ensures
            frame_sent(self@, response_frame(id@, result@), sent),
    {
        if let Some(error) = self.closed_error() {
            return Err(error);
        }
        Ok(response_line(id, result))
    }

    /// Answers a server-to-client request with an error.
    pub fn respond_error(&self, id: &Json, code: i64, message: &str, data: Option<Json>) -> (sent:
        Result<String, SdkError>)
        ensures
            frame_sent(self@, error_frame(id@, code, message@, opt_tree(data)), sent),
            sent matches Ok(line) ==> carries_error(line@, id@, code, message@, opt_tree(data)),
    {
        if let Some(error) = self.closed_error() {
            return Err(error);
        }
        Ok(error_line(id, code, message, data))
    }

    /// The error of a frame that could not be handed to the writer.
    pub fn write_error(&self) -> (error: SdkError)
        ensures
            error@ == self@.closed_or("DeepSeek Harness runtime stdin closed"@),
    {
        self.closed_or("DeepSeek Harness runtime stdin closed")
    }

    /// Gives up a request whose frame could not be handed to the writer.
    pub fn write_failed(&mut self, id: &str) -> (error: SdkError)
        requires
            old(self).wf(),
        ensures
            final(self).wf(),
            final(self)@ == old(self)@.settled(id@),
            error@ == old(self)@.closed_or("DeepSeek Harness runtime stdin closed"@),
    {
        self.settle(id);
        self.write_error()
    }

    /// Gives up a request whose deadline has passed, with the runtime's diagnostics. `None` when
    /// the request no longer awaits a response.
    pub fn expire(&mut self, id: &str, exit_code: Option<i32>, stderr_tail: &Vec<String>) -> (error:
        Option<SdkError>)
        requires
            old(self).wf(),
        ensures
            final(self).wf(),
            final(self)@ == old(self)@.settled(id@),
            opt_error(error) == (if old(self)@.pending.contains_key(id@) {
                Some(
                    SdkErrorView::RequestTimeout {
                        message: report(
                            old(self)@.pending[id@]
                                + " timed out waiting for DeepSeek Harness runtime"@,
                            exit_code,
                            texts(stderr_tail@),
                        ),
                    },
                )
            } else {
                None
            }),
    {
        let error = match self.pending.get(id) {
            Some(method) => Some(
                SdkError::request_timeout(method.as_str(), exit_code, stderr_tail),
            ),
            None => None,
        };
        self.settle(id);
        error
    }

    /// Awaits a request no more.
    fn settle(&mut self, id: &str)
        requires
            old(self).wf(),
        ensures
            final(self).wf(),
            final(self)@ == old(self)@.settled(id@),
    {
        self.pending.remove(id);
        assert(self@.pending =~= old(self)@.pending.remove(id@));
        assert(self@.consistent()) by {
            assert(old(self)@.closed is Some ==> self@.pending =~= Map::<
                Seq<char>,
                Seq<char>,
            >::empty());
        }
    }

    /// Takes in one line from the runtime.
    pub fn receive(&mut self, line: &str) -> (received: Received)
        requires
            old(self).wf(),
        ensures
            final(self).wf(),
            (final(self)@, received@) == old(self)@.received(line@),
    {
        match read_line(line) {
            Frame::Ignored => Received::Nothing,
            Frame::Request(request) => {
                self.requests.push_back(Incoming::Request(request));
                assert(self@.requests =~= old(self)@.requests.push(IncomingView::Request(request@)));
                Received::Requested
            },
            Frame::Response { key, outcome } => if self.pending.contains(key.as_str()) {
                self.settle(key.as_str());
                Received::Completed { id: key, outcome }
            } else {
                Received::Nothing
            },
            Frame::Notification(notification) => Received::Notification(notification),
        }
    }
}

impl Peer {
    /// Hands a notification out: each matching subscription receives it once, and the unmatched
    /// queue receives it when none matched. `judgements` holds what the callers' own predicates
    /// said of it, by subscription id.
    pub fn deliver(
        &mut self,
        notification: Notification,
        lineage: &Lineage,
        judgements: &Vec<(u64, Judgement)>,
    )
        requires
            old(self).wf(),
        ensures
            final(self).wf(),
            final(self)@ == old(self)@.delivered(notification@, lineage@, judgements@),
    {
        let mut matched = false;
        let mut i: usize = 0;
        while i < self.slots.len()
            invariant
                i <= self.slots@.len(),
                self.slots@.len() == old(self).slots@.len(),
                self.pending == old(self).pending,
                self.unmatched == old(self).unmatched,
                self.requests == old(self).requests,
                self.closed == old(self).closed,
                self.request_timeout == old(self).request_timeout,
                self.next_id == old(self).next_id,
                forall|j: int|
                    0 <= j < self.slots@.len() ==> (#[trigger] self.slots@[j]).id == old(
                        self,
                    ).slots@[j].id,
                forall|j: int|
                    0 <= j < i ==> (#[trigger] self.slots@[j])@ == after_judgement(
                        old(self).slots@[j]@,
                        judged(
                            old(self).slots@[j]@,
                            old(self).slots@[j].id,
                            notification@,
                            lineage@,
                            judgements@,
                        ),
                        notification@,
                    ),
                forall|j: int|
                    i <= j < self.slots@.len() ==> #[trigger] self.slots@[j] == old(
                        self,
                    ).slots@[j],
                matched <==> exists|j: int|
                    0 <= j < i && judged(
                        (#[trigger] old(self).slots@[j])@,
                        old(self).slots@[j].id,
                        notification@,
                        lineage@,
                        judgements@,
                    ) is Match,
            decreases self.slots@.len() - i,
        {
            let ghost before = matched;
            let hit = self.slots[i].offer(&notification, lineage, judgements);
            if hit {
                matched = true;
            }
            proof {
                let k = i as int;
                if before {
                    let j = choose|j: int|
                        0 <= j < i && judged(
                            (#[trigger] old(self).slots@[j])@,
                            old(self).slots@[j].id,
                            notification@,
                            lineage@,
                            judgements@,
                        ) is Match;
                    assert(old(self).slots@[j] == old(self).slots@[j]);
                }
                assert(old(self).slots@[k] == old(self).slots@[k]);
            }
            i += 1;
        }
        let ghost parents = lineage@;
        let ghost said = judgements@;
        proof {
            let ours = self.slots@;
            let theirs = old(self).slots@;
            lemma_same_ids(theirs, ours);
            let goal = old(self)@.delivered(notification@, parents, said).subscribers;
            assert forall|i: int| 0 <= i < ours.len() implies goal.contains_key(
                (#[trigger] ours[i]).id,
            ) && goal[ours[i].id] == ours[i]@ by {
                lemma_slot(theirs, i);
            }
            lemma_slots_map(ours, goal);
            let some = old(self)@.matched(notification@, parents, said);
            if matched {
                let j = choose|j: int|
                    0 <= j < theirs.len() && judged(
                        (#[trigger] theirs[j])@,
                        theirs[j].id,
                        notification@,
                        parents,
                        said,
                    ) is Match;
                lemma_slot(theirs, j);
                assert(old(self)@.subscribers.contains_key(theirs[j].id));
                assert(some);
            }
            if some {
                let id = choose|id: u64| #[trigger]
                    old(self)@.subscribers.contains_key(id) && judged(
                        old(self)@.subscribers[id],
                        id,
                        notification@,
                        parents,
                        said,
                    ) is Match;
                let j = slot_at(theirs, id);
                assert(theirs[j].id == id);
                lemma_slot(theirs, j);
                assert(matched);
            }
        }
        if !matched {
            if let Some(unmatched) = &mut self.unmatched {
                unmatched.inbox.put(notification);
            }
        }
    }

    /// Closes the transport with an error: the first error stays, every awaited request fails
    /// with it, every subscription ends with it, and it is queued behind the server-to-client
    /// requests. The ids of the requests that fail are returned.
    pub fn fail_closed(&mut self, error: &SdkError) -> (failed: Vec<String>)
        requires
            old(self).wf(),
        ensures
            final(self).wf(),
            final(self)@ == old(self)@.failed(error@),
            texts(failed@).no_duplicates(),
            forall|id: Seq<char>| #[trigger]
                texts(failed@).contains(id) <==> old(self)@.pending.contains_key(id),
    {
        let failed = self.pending.keys();
        if self.closed.is_some() {
            return failed;
        }
        self.closed = Some(error.clone());
        self.pending = TextMap::new();
        let mut i: usize = 0;
        while i < self.slots.len()
            invariant
                i <= self.slots@.len(),
                self.slots@.len() == old(self).slots@.len(),
                self.unmatched == old(self).unmatched,
                self.requests == old(self).requests,
                self.closed matches Some(closed) && closed@ == error@,
                self.pending@ == Map::<Seq<char>, String>::empty(),
                self.request_timeout == old(self).request_timeout,
                self.next_id == old(self).next_id,
                forall|j: int|
                    0 <= j < self.slots@.len() ==> (#[trigger] self.slots@[j]).id == old(
                        self,
                    ).slots@[j].id,
                forall|j: int|
                    0 <= j < i ==> (#[trigger] self.slots@[j])@ == (SubscriberView {
                        inbox: old(self).slots@[j]@.inbox.end(error@),
                        ..old(self).slots@[j]@
                    }),
                forall|j: int|
                    i <= j < self.slots@.len() ==> #[trigger] self.slots@[j] == old(
                        self,
                    ).slots@[j],
            decreases self.slots@.len() - i,
        {
            self.slots[i].inbox.close(error);
            i += 1;
        }
        proof {
            let ours = self.slots@;
            let theirs = old(self).slots@;
            lemma_same_ids(theirs, ours);
            let goal = old(self)@.failed(error@).subscribers;
            assert forall|i: int| 0 <= i < ours.len() implies goal.contains_key(
                (#[trigger] ours[i]).id,
            ) && goal[ours[i].id] == ours[i]@ by {
                lemma_slot(theirs, i);
            }
            lemma_slots_map(ours, goal);
        }
        if let Some(unmatched) = &mut self.unmatched {
            unmatched.inbox.close(error);
        }
        self.requests.push_back(Incoming::Closed(error.clone()));
        assert(self@.requests =~= old(self)@.requests.push(IncomingView::Closed(error@)));
        assert(self@.pending =~= Map::empty());
        failed
    }
}

/// A notification subscription: the handle under which a [`Peer`] keeps its queue.
#[derive(Debug, PartialEq, Eq)]
pub struct NotificationSubscription {
    /// The id of the subscription.
    pub id: u64,
}

/// What a server-to-client request queue has to give.
#[derive(Debug, PartialEq)]
pub enum RequestDelivery {
    /// The oldest request not yet taken.
    Ready(IncomingRequest),
    /// The transport closed here; comes once.
    Ended(SdkError),
    /// Nothing yet.
    Waiting,
}

/// The mathematical value of a [`RequestDelivery`].
pub enum RequestDeliveryView {
    /// See [`RequestDelivery::Ready`].
    Ready(IncomingRequestView),
    /// See [`RequestDelivery::Ended`].
    Ended(SdkErrorView),
    /// See [`RequestDelivery::Waiting`].
    Waiting,
}

impl View for RequestDelivery {
    type V = RequestDeliveryView;

    open spec fn view(&self) -> RequestDeliveryView {
        match *self {
            RequestDelivery::Ready(request) => RequestDeliveryView::Ready(request@),
            RequestDelivery::Ended(error) => RequestDeliveryView::Ended(error@),
            RequestDelivery::Waiting => RequestDeliveryView::Waiting,
        }
    }
}

impl PeerView {
    /// The state with one more subscription.
    pub open spec fn subscribed(self, filter: FilterView) -> PeerView {
        PeerView {
            subscribers: self.subscribers.insert(
                self.next_id,
                SubscriberView { filter, inbox: InboxView::fresh() },
            ),
            next_id: (self.next_id + 1) as u64,
            ..self
        }
    }

    /// The state with the unmatched queue opened anew, under an id of its own: empty, and ended
    /// where the transport is closed. An older one stays to be drained by its subscription.
    pub open spec fn opened(self) -> PeerView {
        PeerView {
            subscribers: match self.unmatched {
                Some(older) => self.subscribers.insert(
                    older.id,
                    SubscriberView {
                        filter: FilterView::All,
                        inbox: InboxView { superseded: true, ..older.inbox },
                    },
                ),
                None => self.subscribers,
            },
            unmatched: Some(
                UnmatchedView {
                    id: self.next_id,
                    inbox: InboxView { ended: self.closed, ..InboxView::fresh() },
                },
            ),
            next_id: (self.next_id + 1) as u64,
            ..self
        }
    }

    /// The state without a subscription; the unmatched queue is permanent.
    pub open spec fn unsubscribed(self, id: u64) -> PeerView {
        PeerView { subscribers: self.subscribers.remove(id), ..self }
    }

    /// What taking from the request queue gives: the oldest item.
    pub open spec fn front_request(self) -> RequestDeliveryView {
        if self.requests.len() == 0 {
            RequestDeliveryView::Waiting
        } else {
            match self.requests[0] {
                IncomingView::Request(request) => RequestDeliveryView::Ready(request),
                IncomingView::Closed(error) => RequestDeliveryView::Ended(error),
            }
        }
    }

    /// The state after taking from the request queue.
    pub open spec fn request_taken(self) -> PeerView {
        if self.requests.len() == 0 {
            self
        } else {
            PeerView { requests: self.requests.drop_first(), ..self }
        }
    }
}

impl Peer {
    /// Whether there is an id left for another subscription.
    pub fn has_room(&self) -> (room: bool)
        ensures
            room == (self@.next_id < u64::MAX),
    {
        self.next_id < u64::MAX
    }

    /// Registers a subscription; each matching notification is delivered to it once.
    pub fn subscribe(&mut self, filter: NotificationFilter) -> (result: Result<
        NotificationSubscription,
        SdkError,
    >)
        requires
            old(self).wf(),
            old(self)@.next_id < u64::MAX,
        ensures
            final(self).wf(),
            match old(self)@.closed {
                Some(error) => result matches Err(refused) && refused@ == error && final(self)@
                    == old(self)@,
                None => result matches Ok(subscription) && subscription.id == old(self)@.next_id
                    && final(self)@ == old(self)@.subscribed(filter@),
            },
    {
        if let Some(error) = self.closed_error() {
            return Err(error);
        }
        let id = self.next_id;
        add_slot(&mut self.slots, Slot { id, filter, inbox: Inbox::new() });
        self.next_id = id + 1;
        Ok(NotificationSubscription { id })
    }

    /// Subscribes to the unmatched queue: it opens empty, and receives the notifications that no
    /// subscription matches. Where the transport is closed it has ended with the closing error. A
    /// subscription to the queue as it was before keeps what it had received, and then ends.
    pub fn subscribe_default(&mut self) -> (subscription: NotificationSubscription)
        requires
            old(self).wf(),
            old(self)@.next_id < u64::MAX,
        ensures
            final(self).wf(),
            subscription.id == old(self)@.next_id,
            final(self)@ == old(self)@.opened(),
    {
        let id = self.next_id;
        let mut inbox = Inbox::new();
        inbox.ended = self.closed_error();
        if let Some(older) = self.unmatched.take() {
            let mut drained = older.inbox;
            drained.superseded = true;
            add_slot(
                &mut self.slots,
                Slot { id: older.id, filter: NotificationFilter::All, inbox: drained },
            );
        }
        self.unmatched = Some(Unmatched { id, inbox });
        self.next_id = id + 1;
        NotificationSubscription { id }
    }

    /// The place of a subscription's slot.
    fn find_slot(&self, id: u64) -> (place: Option<usize>)
        requires
            self.wf(),
        ensures
            match place {
                Some(i) => {
                    &&& i < self.slots@.len()
                    &&& self.slots@[i as int].id == id
                    &&& self@.subscribers.contains_key(id)
                    &&& self@.subscribers[id] == self.slots@[i as int]@
                },
                None => !self@.subscribers.contains_key(id),
            },
    {
        let mut i: usize = 0;
        while i < self.slots.len()
            invariant
                i <= self.slots@.len(),
                self.wf(),
                forall|j: int| 0 <= j < i ==> (#[trigger] self.slots@[j]).id != id,
            decreases self.slots@.len() - i,
        {
            if self.slots[i].id == id {
                proof {
                    lemma_slot(self.slots@, i as int);
                }
                return Some(i);
            }
            i += 1;
        }
        None
    }

    /// Ends a subscription. The unmatched queue stays.
    pub fn unsubscribe(&mut self, id: u64)
        requires
            old(self).wf(),
        ensures
            final(self).wf(),
            final(self)@ == old(self)@.unsubscribed(id),
    {
        match self.find_slot(id) {
            Some(i) => {
                let ghost before = self.slots@;
                self.slots.remove(i);
                proof {
                    let ours = self.slots@;
                    assert(ours =~= before.remove(i as int));
                    assert(distinct_slots(ours)) by {
                        assert forall|a: int, b: int|
                            0 <= a < ours.len() && 0 <= b < ours.len() && #[trigger] ours[a].id
                                == #[trigger] ours[b].id implies a == b by {
                            let a0 = if a < i { a } else { a + 1 };
                            let b0 = if b < i { b } else { b + 1 };
                            assert(before[a0].id == before[b0].id);
                        }
                    }
                    let goal = old(self)@.subscribers.remove(id);
                    assert forall|a: int| 0 <= a < ours.len() implies goal.contains_key(
                        (#[trigger] ours[a]).id,
                    ) && goal[ours[a].id] == ours[a]@ by {
                        let a0 = if a < i { a } else { a + 1 };
                        lemma_slot(before, a0);
                        assert(before[a0].id == before[i as int].id ==> a0 == i);
                    }
                    assert forall|k: u64| #[trigger] goal.contains_key(k) implies has_slot(
                        ours,
                        k,
                    ) by {
                        let a0 = slot_at(before, k);
                        assert(ours[if a0 < i { a0 } else { a0 - 1 }].id == k);
                    }
                    lemma_slots_map(ours, goal);
                    assert forall|k: u64| #[trigger] self@.subscribers.contains_key(k) implies 0 < k
                        < self.next_id by {
                        assert(old(self)@.subscribers.contains_key(k));
                    }
                    assert(self@.closed is Some ==> forall|k: u64| #[trigger]
                        self@.subscribers.contains_key(k) ==> old(self)@.subscribers.contains_key(
                            k,
                        ));
                }
            },
            None => {
                assert(self@.subscribers =~= self@.subscribers.remove(id));
            },
        }
    }

    /// Takes from a subscription: its oldest notification, and its terminal error once there is
    /// none.
    pub fn take(&mut self, id: u64) -> (delivery: Delivery)
        requires
            old(self).wf(),
        ensures
            final(self).wf(),
            delivery@ == old(self)@.front(id),
            final(self)@ == old(self)@.taken(id),
    {
        let closing = self.closed_or("DeepSeek Harness runtime closed");
        if let Some(unmatched) = &mut self.unmatched {
            if unmatched.id == id {
                return unmatched.inbox.take(&closing);
            }
        }
        match self.find_slot(id) {
            Some(i) => {
                let ghost before = self.slots@;
                let delivery = self.slots[i].inbox.take(&closing);
                proof {
                    let ours = self.slots@;
                    lemma_same_ids(before, ours);
                    let goal = old(self)@.taken(id).subscribers;
                    assert forall|a: int| 0 <= a < ours.len() implies goal.contains_key(
                        (#[trigger] ours[a]).id,
                    ) && goal[ours[a].id] == ours[a]@ by {
                        lemma_slot(before, a);
                    }
                    lemma_slots_map(ours, goal);
                }
                delivery
            },
            None => Delivery::Ended(closing),
        }
    }

    /// Takes from the queue of server-to-client requests. The error that closes the transport comes
    /// once, behind the requests that came before it; `Waiting` while there is nothing.
    pub fn next_request(&mut self) -> (delivery: RequestDelivery)
        requires
            old(self).wf(),
        ensures
            final(self).wf(),
            delivery@ == old(self)@.front_request(),
            final(self)@ == old(self)@.request_taken(),
    {
        let item = self.requests.pop_front();
        proof {
            let before = old(self)@.requests;
            if before.len() > 0 {
                assert(self@.requests =~= before.drop_first());
                assert forall|i: int| 0 <= i < self@.requests.len() implies #[trigger] self@.requests[i]
                    == before[i + 1] by {}
            }
        }
        match item {
            Some(Incoming::Request(request)) => RequestDelivery::Ready(request),
            Some(Incoming::Closed(error)) => RequestDelivery::Ended(error),
            None => RequestDelivery::Waiting,
        }
    }
}

impl NotificationSubscription {
    /// The next matching notification, or the terminal error once the queue is drained; `Waiting`
    /// while there is neither.
    pub fn next(&mut self, peer: &mut Peer) -> (delivery: Delivery)
        requires
            old(peer).wf(),
        ensures
            final(self).id == old(self).id,
            final(peer).wf(),
            delivery@ == old(peer)@.front(old(self).id),
            final(peer)@ == old(peer)@.taken(old(self).id),
    {
        peer.take(self.id)
    }

    /// The next matching notification; `None` when the queue is empty. A terminal error surfaces
    /// on the next [`Self::next`] call.
    pub fn try_next(&mut self, peer: &mut Peer) -> (notification: Option<Notification>)
        requires
            old(peer).wf(),
        ensures
            final(self).id == old(self).id,
            final(peer).wf(),
            match (old(peer)@.front(old(self).id), notification) {
                (DeliveryView::Ready(expected), Some(got)) => got@ == expected,
                (DeliveryView::Ready(_), None) => false,
                (_, got) => got is None,
            },
            final(peer)@ == old(peer)@.taken(old(self).id),
    {
        match peer.take(self.id) {
            Delivery::Ready(notification) => Some(notification),
            _ => None,
        }
    }
}

/// Every state that the methods of a [`Peer`] lead to is consistent.
pub proof fn law_reachable_states_are_consistent(peer: Peer)
    requires
        peer.wf(),
    ensures
        peer@.consistent(),
{
}

/// A response completes the request that awaits it, once: a later response under the same id
/// comes to nothing, and the other requests keep waiting.
pub proof fn law_a_request_completes_once(
    state: PeerView,
    line: Seq<char>,
    later: Seq<char>,
    id: Seq<char>,
    outcome: OutcomeView,
    other: Seq<char>,
)
    requires
        state.pending.contains_key(id),
        line_frame(line) == (FrameView::Response { key: id, outcome }),
        line_frame(later) matches FrameView::Response { key, .. } && key == id,
        other != id,
    ensures
        state.received(line).1 == (ReceivedView::Completed { id, outcome }),
        state.received(line).0.received(later) == (state.received(line).0, ReceivedView::Nothing),
        state.received(line).0.pending.contains_key(other) == state.pending.contains_key(other),
        state.pending.contains_key(other) ==> state.received(line).0.pending[other]
            == state.pending[other],
{
}

/// A line that is no JSON object changes nothing.
pub proof fn law_invalid_lines_are_ignored(state: PeerView, line: Seq<char>)
    requires
        parsed_text(line) matches ParsedView::Tree(message) ==> !(message is Object),
    ensures
        state.received(line) == (state, ReceivedView::Nothing),
{
}

/// A matching subscription receives a notification exactly once, behind what it already had; any
/// other keeps its queue. The unmatched queue receives it exactly when no subscription matched.
pub proof fn law_each_match_receives_once(
    state: PeerView,
    notification: NotificationView,
    parents: Map<Seq<char>, Seq<char>>,
    judgements: Seq<(u64, Judgement)>,
    id: u64,
)
    requires
        state.subscribers.contains_key(id),
    ensures
        ({
            let before = state.subscribers[id].inbox;
            let after = state.delivered(notification, parents, judgements).subscribers[id].inbox;
            if judged(state.subscribers[id], id, notification, parents, judgements) is Match {
                after.queue == before.queue.push(notification) && after.ended == before.ended
            } else {
                after.queue == before.queue
            }
        }),
        state.unmatched matches Some(unmatched) ==> unmatched.inbox.live() ==> state.delivered(
            notification,
            parents,
            judgements,
        ).unmatched == Some(
            if state.matched(notification, parents, judgements) {
                unmatched
            } else {
                UnmatchedView {
                    inbox: InboxView {
                        queue: unmatched.inbox.queue.push(notification),
                        ..unmatched.inbox
                    },
                    ..unmatched
                }
            },
        ),
{
}

/// A predicate that panics ends its own subscription with a protocol error and touches nothing
/// else: all the rest is as if it had rejected the notification.
pub proof fn law_a_panicking_filter_is_contained(
    state: PeerView,
    notification: NotificationView,
    parents: Map<Seq<char>, Seq<char>>,
    id: u64,
    message: String,
    rest: Seq<(u64, Judgement)>,
)
    requires
        state.subscribers.contains_key(id),
        state.subscribers[id].filter is Custom,
        state.subscribers[id].inbox.live(),
    ensures
        ({
            let panicked = state.delivered(
                notification,
                parents,
                seq![(id, Judgement::Panicked(message))] + rest,
            );
            let rejected = state.delivered(
                notification,
                parents,
                seq![(id, Judgement::Skip)] + rest,
            );
            &&& panicked.subscribers[id].inbox == (InboxView {
                ended: Some(SdkErrorView::Protocol { message: message@ }),
                ..state.subscribers[id].inbox
            })
            &&& panicked == (PeerView {
                subscribers: rejected.subscribers.insert(id, panicked.subscribers[id]),
                ..rejected
            })
        }),
{
    let with_panic = seq![(id, Judgement::Panicked(message))] + rest;
    let with_skip = seq![(id, Judgement::Skip)] + rest;
    assert(with_panic.drop_first() =~= rest);
    assert(with_skip.drop_first() =~= rest);
    assert(judgement_in(with_panic, id) == JudgementView::Panicked(message@));
    assert(judgement_in(with_skip, id) == JudgementView::Skip);
    assert forall|other: u64| other != id implies judgement_in(with_panic, other) == judgement_in(
        with_skip,
        other,
    ) by {}
    let panicked = state.delivered(notification, parents, with_panic);
    let rejected = state.delivered(notification, parents, with_skip);
    assert forall|k: u64| #[trigger] state.subscribers.contains_key(k) implies (judged(
        state.subscribers[k],
        k,
        notification,
        parents,
        with_panic,
    ) is Match) == (judged(state.subscribers[k], k, notification, parents, with_skip) is Match) by {
        if k != id {
            assert(judgement_in(with_panic, k) == judgement_in(with_skip, k));
        }
    }
    assert(state.matched(notification, parents, with_panic) == state.matched(
        notification,
        parents,
        with_skip,
    ));
    assert forall|k: u64| k != id && #[trigger] state.subscribers.contains_key(k) implies
        panicked.subscribers[k] == rejected.subscribers[k] by {
        assert(judgement_in(with_panic, k) == judgement_in(with_skip, k));
    }
    assert(panicked.subscribers =~= rejected.subscribers.insert(id, panicked.subscribers[id]));
}

/// Of several closing errors the first stays, and closing again changes nothing.
pub proof fn law_the_first_error_wins(state: PeerView, first: SdkErrorView, second: SdkErrorView)
    requires
        state.closed is None,
    ensures
        state.failed(first).closed == Some(first),
        state.failed(first).failed(second) == state.failed(first),
{
}

/// A closed transport completes no request and hands no notification out: of what still arrives
/// only a server-to-client request is kept, in its queue.
pub proof fn law_a_closed_transport_is_inert(
    state: PeerView,
    line: Seq<char>,
    notification: NotificationView,
    parents: Map<Seq<char>, Seq<char>>,
    judgements: Seq<(u64, Judgement)>,
)
    requires
        state.consistent(),
        state.closed is Some,
    ensures
        !(state.received(line).1 is Completed),
        state.received(line).0 == (match line_frame(line) {
            FrameView::Request(request) => PeerView {
                requests: state.requests.push(IncomingView::Request(request)),
                ..state
            },
            _ => state,
        }),
        state.delivered(notification, parents, judgements) == state,
{
    let after = state.delivered(notification, parents, judgements);
    assert(after.subscribers =~= state.subscribers);
}

/// Closing keeps what a subscription has queued: it is taken first, in order, and then the error
/// comes, again and again.
pub proof fn law_queued_notifications_precede_the_error(
    state: PeerView,
    error: SdkErrorView,
    id: u64,
)
    requires
        state.consistent(),
        state.closed is None,
        state.subscribers.contains_key(id),
        state.subscribers[id].inbox.ended is None,
    ensures
        ({
            let closed = state.failed(error);
            let inbox = state.subscribers[id].inbox;
            let queue = inbox.queue;
            &&& closed.subscribers[id].inbox == (InboxView { ended: Some(error), ..inbox })
            &&& queue.len() > 0 ==> closed.front(id) == DeliveryView::Ready(queue[0])
                && closed.taken(id).subscribers[id].inbox == (InboxView {
                queue: queue.drop_first(),
                ended: Some(error),
                ..inbox
            })
            &&& queue.len() == 0 ==> closed.front(id) == DeliveryView::Ended(error)
                && closed.taken(id) == closed
        }),
{
    let closed = state.failed(error);
    let queue = state.subscribers[id].inbox.queue;
    if queue.len() == 0 {
        assert(closed.taken(id).subscribers =~= closed.subscribers);
    }
}

/// Closing queues the error behind the server-to-client requests, and taking from the queue gives
/// it once: before it come the requests that were there, in order, and behind it those that still
/// arrive.
pub proof fn law_the_request_queue_gives_the_error_once(
    state: PeerView,
    error: SdkErrorView,
    line: Seq<char>,
    late: IncomingRequestView,
)
    requires
        state.consistent(),
        state.closed is None,
        line_frame(line) == FrameView::Request(late),
    ensures
        state.requests.len() > 0 ==> (state.requests[0] matches IncomingView::Request(request)
            && state.failed(error).front_request() == RequestDeliveryView::Ready(request)
            && state.failed(error).request_taken() == state.request_taken().failed(error)),
        state.requests.len() == 0 ==> ({
            let closed = state.failed(error);
            let drained = closed.request_taken();
            let asked = closed.received(line).0;
            &&& closed.front_request() == RequestDeliveryView::Ended(error)
            &&& drained.front_request() == RequestDeliveryView::Waiting
            &&& drained.received(line).0.front_request() == RequestDeliveryView::Ready(late)
            &&& asked.front_request() == RequestDeliveryView::Ended(error)
            &&& asked.request_taken().front_request() == RequestDeliveryView::Ready(late)
            &&& asked.request_taken().request_taken().front_request()
                == RequestDeliveryView::Waiting
        }),
{
    if state.requests.len() > 0 {
        assert(state.failed(error).request_taken().requests =~= state.request_taken().failed(
            error,
        ).requests);
    }
}

/// The unmatched queue is permanent: ending the subscription that reads it changes nothing.
pub proof fn law_the_unmatched_queue_is_permanent(state: PeerView, id: u64)
    requires
        state.consistent(),
        state.reads_unmatched(id),
    ensures
        state.unsubscribed(id) == state,
{
    assert(state.subscribers.remove(id) =~= state.subscribers);
}

/// The unmatched queue can be opened at any time: it is empty then, and where the transport is
/// closed it gives the closing error. Opened a second time, it leaves the older subscription what
/// that had received, in order, and then ends it, for good.
pub proof fn law_opening_the_unmatched_queue_anew(
    state: PeerView,
    older: UnmatchedView,
    notification: NotificationView,
    parents: Map<Seq<char>, Seq<char>>,
    judgements: Seq<(u64, Judgement)>,
)
    requires
        state.consistent(),
        state.next_id < u64::MAX,
    ensures
        ({
            let opened = state.opened();
            &&& opened.consistent()
            &&& opened.front(state.next_id) == (match state.closed {
                Some(error) => DeliveryView::Ended(error),
                None => DeliveryView::Waiting,
            })
            &&& opened.taken(state.next_id) == opened
        }),
        state.unmatched == Some(older) ==> ({
            let opened = state.opened();
            let later = opened.delivered(notification, parents, judgements);
            let kept = InboxView { superseded: true, ..older.inbox };
            let closing = opened.closed_or("DeepSeek Harness runtime closed"@);
            &&& opened.subscribers[older.id].inbox == kept
            &&& later.subscribers[older.id].inbox == kept
            &&& older.inbox.queue.len() > 0 ==> opened.front(older.id) == DeliveryView::Ready(
                older.inbox.queue[0],
            ) && opened.taken(older.id).subscribers[older.id].inbox == (InboxView {
                queue: older.inbox.queue.drop_first(),
                ..kept
            })
            &&& older.inbox.queue.len() == 0 ==> opened.front(older.id) == DeliveryView::Ended(
                closing,
            ) && opened.taken(older.id).subscribers[older.id].inbox == (InboxView {
                ended: Some(closing),
                ..kept
            })
        }),
{
}

/// A request gets the answer that the other side gives to it: the result it responds with, or the
/// error it reports, with code, message and data preserved.
pub proof fn law_a_request_gets_its_answer(
    state: PeerView,
    id: Seq<char>,
    method: Seq<char>,
    line: Seq<char>,
    result: JsonView,
    code: i64,
    message: Seq<char>,
    data: Option<JsonView>,
)
    requires
        state.closed is None,
    ensures
        carries(line, response_frame(JsonView::String(id), result)) && integral_within(
            response_frame(JsonView::String(id), result),
            reader_depth(),
        ) ==> state.awaiting(id, method).received(line) == (
            state.settled(id),
            ReceivedView::Completed { id, outcome: OutcomeView::Success(result) },
        ),
        carries_error(line, JsonView::String(id), code, message, data) && integral_within(
            error_frame(JsonView::String(id), code, message, data),
            reader_depth(),
        ) ==> state.awaiting(id, method).received(line) == (
            state.settled(id),
            ReceivedView::Completed {
                id,
                outcome: OutcomeView::Failure(
                    SdkErrorView::JsonRpcResponse { code: Some(code), message, data },
                ),
            },
        ),
{
    let name = JsonView::String(id);
    assert(state.awaiting(id, method).settled(id).pending =~= state.settled(id).pending);
    if carries(line, response_frame(name, result)) && integral_within(
        response_frame(name, result),
        reader_depth(),
    ) {
        crate::frames::law_results_read_back(line, name, result);
    }
    if carries_error(line, name, code, message, data) && integral_within(
        error_frame(name, code, message, data),
        reader_depth(),
    ) {
        crate::frames::law_errors_read_back(line, name, code, message, data);
    }
}

/// A live subscription to everything receives every notification, behind what it already had.
pub proof fn law_everything_reaches_a_subscription_to_all(
    peer: &mut Peer,
    notification: Notification,
    lineage: Lineage,
    judgements: Vec<(u64, Judgement)>,
    id: u64,
)
    requires
        call_ensures(Peer::deliver, (peer, notification, &lineage, &judgements), ()),
        old(peer)@.subscribers.contains_key(id),
        old(peer)@.subscribers[id].filter is All,
        old(peer)@.subscribers[id].inbox.ended is None,
        !old(peer)@.subscribers[id].inbox.superseded,
    ensures
        final(peer)@.subscribers.contains_key(id),
        final(peer)@.subscribers[id].inbox.queue == old(peer)@.subscribers[id].inbox.queue.push(
            notification@,
        ),
        final(peer)@.subscribers[id].inbox.ended is None,
{
}

/// A live subscription to a session tree receives exactly the notifications that concern the tree.
pub proof fn law_a_tree_subscription_receives_its_tree(
    peer: &mut Peer,
    notification: Notification,
    lineage: Lineage,
    judgements: Vec<(u64, Judgement)>,
    id: u64,
    root: Seq<char>,
)
    requires
        call_ensures(Peer::deliver, (peer, notification, &lineage, &judgements), ()),
        old(peer)@.subscribers.contains_key(id),
        old(peer)@.subscribers[id].filter == FilterView::SessionTree(root),
        old(peer)@.subscribers[id].inbox.ended is None,
        !old(peer)@.subscribers[id].inbox.superseded,
    ensures
        final(peer)@.subscribers.contains_key(id),
        final(peer)@.subscribers[id].inbox.queue == if concerns_tree(
            lineage@,
            root,
            notification@,
        ) {
            old(peer)@.subscribers[id].inbox.queue.push(notification@)
        } else {
            old(peer)@.subscribers[id].inbox.queue
        },
        final(peer)@.subscribers[id].inbox.ended is None,
{
}

/// A live subscription with a predicate of the caller goes by the first thing that the predicate is
/// said to have said: it receives what was accepted, not what was rejected or passed over, and a
/// panic ends it with the message.
pub proof fn law_a_predicate_decides_for_its_subscription(
    peer: &mut Peer,
    notification: Notification,
    lineage: Lineage,
    judgements: Vec<(u64, Judgement)>,
    id: u64,
    at: int,
)
    requires
        call_ensures(Peer::deliver, (peer, notification, &lineage, &judgements), ()),
        old(peer)@.subscribers.contains_key(id),
        old(peer)@.subscribers[id].filter is Custom,
        old(peer)@.subscribers[id].inbox.ended is None,
        !old(peer)@.subscribers[id].inbox.superseded,
        0 <= at <= judgements@.len(),
        forall|i: int| 0 <= i < at ==> (#[trigger] judgements@[i]).0 != id,
        at < judgements@.len() ==> judgements@[at].0 == id,
    ensures
        ({
            let before = old(peer)@.subscribers[id].inbox;
            let after = final(peer)@.subscribers[id].inbox;
            if at == judgements@.len() {
                after == before
            } else {
                match judgements@[at].1 {
                    Judgement::Match => after.queue == before.queue.push(notification@)
                        && after.ended is None,
                    Judgement::Skip => after == before,
                    Judgement::Panicked(message) => after.queue == before.queue && after.ended
                        == Some(SdkErrorView::Protocol { message: message@ }),
                }
            }
        }),
{
    lemma_first_judgement(judgements@, id, at);
}

proof fn lemma_first_judgement(judgements: Seq<(u64, Judgement)>, id: u64, at: int)
    requires
        0 <= at <= judgements.len(),
        forall|i: int| 0 <= i < at ==> (#[trigger] judgements[i]).0 != id,
        at < judgements.len() ==> judgements[at].0 == id,
    ensures
        judgement_in(judgements, id) == if at < judgements.len() {
            judgements[at].1@
        } else {
            JudgementView::Skip
        },
    decreases judgements.len(),
{
    if at > 0 {
        let rest = judgements.drop_first();
        assert(judgements[0].0 != id);
        assert forall|i: int| 0 <= i < at - 1 implies (#[trigger] rest[i]).0 != id by {
            assert(rest[i] == judgements[i + 1]);
        }
        lemma_first_judgement(rest, id, at - 1);
    }
}

/// Handing a notification out touches queues alone: the subscriptions stay the same ones with the
/// same filters, one that has ended or was superseded stays as it is, and requests and their answers
/// are not concerned. The unmatched queue receives the notification exactly when no subscription
/// did.
pub proof fn law_delivering_touches_queues_alone(
    peer: &mut Peer,
    notification: Notification,
    lineage: Lineage,
    judgements: Vec<(u64, Judgement)>,
    id: u64,
)
    requires
        call_ensures(Peer::deliver, (peer, notification, &lineage, &judgements), ()),
    ensures
        final(peer)@.pending == old(peer)@.pending,
        final(peer)@.requests == old(peer)@.requests,
        final(peer)@.closed == old(peer)@.closed,
        final(peer)@.request_timeout == old(peer)@.request_timeout,
        final(peer)@.next_id == old(peer)@.next_id,
        final(peer)@.subscribers.contains_key(id) <==> old(peer)@.subscribers.contains_key(id),
        old(peer)@.subscribers.contains_key(id) ==> final(peer)@.subscribers[id].filter
            == old(peer)@.subscribers[id].filter,
        old(peer)@.subscribers.contains_key(id) && (old(peer)@.subscribers[id].inbox.ended is Some
            || old(peer)@.subscribers[id].inbox.superseded) ==> final(peer)@.subscribers[id]
            == old(peer)@.subscribers[id],
        final(peer)@.unmatched is Some <==> old(peer)@.unmatched is Some,
        old(peer)@.unmatched matches Some(unmatched) ==> {
            let received = exists|other: u64| #[trigger]
                old(peer)@.subscribers.contains_key(other)
                    && final(peer)@.subscribers[other].inbox.queue
                    != old(peer)@.subscribers[other].inbox.queue;
            &&& final(peer)@.unmatched->0.id == unmatched.id
            &&& received ==> final(peer)@.unmatched == Some(unmatched)
            &&& !received && unmatched.inbox.ended is None && !unmatched.inbox.superseded
                ==> final(peer)@.unmatched->0.inbox.queue == unmatched.inbox.queue.push(
                notification@,
            ) && final(peer)@.unmatched->0.inbox.ended is None
            &&& unmatched.inbox.ended is Some ==> final(peer)@.unmatched == Some(unmatched)
        },
{
    if let Some(unmatched) = old(peer)@.unmatched {
        let state = old(peer)@;
        let after = final(peer)@;
        assert forall|other: u64| #[trigger] state.subscribers.contains_key(other) implies (judged(
            state.subscribers[other],
            other,
            notification@,
            lineage@,
            judgements@,
        ) is Match) == (after.subscribers[other].inbox.queue
            != state.subscribers[other].inbox.queue) by {
            let before = state.subscribers[other].inbox.queue;
            assert(before.push(notification@).len() == before.len() + 1);
        }
    }
}

/// A subscription gives its notifications oldest first, each once, then its error again and again,
/// and nothing while it has neither. Taking from one changes no other.
pub proof fn law_a_subscription_is_taken_in_order(
    peer: &mut Peer,
    id: u64,
    delivery: Delivery,
    other: u64,
)
    requires
        call_ensures(Peer::take, (peer, id), delivery),
        !(old(peer)@.unmatched matches Some(unmatched) && unmatched.id == id),
        old(peer)@.subscribers.contains_key(id),
    ensures
        ({
            let before = old(peer)@.subscribers[id].inbox;
            let after = final(peer)@.subscribers[id].inbox;
            &&& before.queue.len() > 0 ==> (delivery matches Delivery::Ready(notification)
                && notification@ == before.queue[0]) && after.queue == before.queue.drop_first()
                && after.ended == before.ended
            &&& before.queue.len() == 0 && before.ended is Some ==> (delivery matches Delivery::Ended(
                error,
            ) && Some(error@) == before.ended) && after == before
            &&& before.queue.len() == 0 && before.ended is None && !before.superseded ==> delivery
                is Waiting && after == before
            &&& before.queue.len() == 0 && before.ended is None && before.superseded ==> (delivery
                matches Delivery::Ended(error) && after.ended == Some(error@))
        }),
        other != id ==> final(peer)@.subscribers.contains_key(other)
            == old(peer)@.subscribers.contains_key(other),
        other != id && old(peer)@.subscribers.contains_key(other) ==> final(peer)@.subscribers[other] == old(peer)@.subscribers[other],
        final(peer)@.subscribers[id].filter == old(peer)@.subscribers[id].filter,
        final(peer)@.unmatched == old(peer)@.unmatched,
        final(peer)@.pending == old(peer)@.pending,
        final(peer)@.requests == old(peer)@.requests,
        final(peer)@.closed == old(peer)@.closed,
{
}

/// The unmatched queue is taken in order by the subscription that opened it last, and a subscription
/// that is no longer there gives the error that closed the transport, or that it is closed.
pub proof fn law_the_unmatched_queue_is_taken_in_order(peer: &mut Peer, id: u64, delivery: Delivery)
    requires
        call_ensures(Peer::take, (peer, id), delivery),
    ensures
        old(peer)@.unmatched matches Some(unmatched) ==> unmatched.id == id
            && !unmatched.inbox.superseded ==> {
            let after = final(peer)@.unmatched->0;
            &&& after.id == id
            &&& unmatched.inbox.queue.len() > 0 ==> (delivery matches Delivery::Ready(notification)
                && notification@ == unmatched.inbox.queue[0]) && after.inbox.queue
                == unmatched.inbox.queue.drop_first() && after.inbox.ended == unmatched.inbox.ended
            &&& unmatched.inbox.queue.len() == 0 ==> after == unmatched && match unmatched.inbox.ended {
                Some(error) => delivery matches Delivery::Ended(got) && got@ == error,
                None => delivery is Waiting,
            }
            &&& final(peer)@.subscribers == old(peer)@.subscribers
        },
        !(old(peer)@.unmatched matches Some(unmatched) && unmatched.id == id)
            && !old(peer)@.subscribers.contains_key(id) ==> final(peer)@ == old(peer)@ && (delivery
            matches Delivery::Ended(error) && match old(peer)@.closed {
            Some(closed) => error@ == closed,
            None => error@ == closed_view("DeepSeek Harness runtime closed"@, None, seq![]),
        }),
{
}

/// A subscription is refused on a closed transport with the closing error, and otherwise gets an id
/// that no other has, its filter, and an empty queue; the others stay.
pub proof fn law_subscribing_adds_one_subscription(
    peer: &mut Peer,
    filter: NotificationFilter,
    result: Result<NotificationSubscription, SdkError>,
    other: u64,
)
    requires
        call_ensures(Peer::subscribe, (peer, filter), result),
        old(peer)@.consistent(),
        old(peer)@.next_id < u64::MAX,
    ensures
        old(peer)@.closed matches Some(error) ==> (result matches Err(refused) && refused@ == error)
            && final(peer)@ == old(peer)@,
        old(peer)@.closed is None ==> (result matches Ok(subscription) && {
            let id = subscription.id;
            &&& !old(peer)@.subscribers.contains_key(id)
            &&& old(peer)@.unmatched matches Some(unmatched) ==> unmatched.id != id
            &&& final(peer)@.subscribers.contains_key(id)
            &&& final(peer)@.subscribers[id].inbox.queue.len() == 0
            &&& final(peer)@.subscribers[id].inbox.ended is None
            &&& !final(peer)@.subscribers[id].inbox.superseded
            &&& match filter {
                NotificationFilter::All => final(peer)@.subscribers[id].filter is All,
                NotificationFilter::SessionTree(root) => final(peer)@.subscribers[id].filter
                    == FilterView::SessionTree(root@),
                NotificationFilter::Custom => final(peer)@.subscribers[id].filter is Custom,
            }
            &&& other != id ==> final(peer)@.subscribers.contains_key(other)
                == old(peer)@.subscribers.contains_key(other)
            &&& other != id && old(peer)@.subscribers.contains_key(other) ==> final(peer)@.subscribers[other] == old(peer)@.subscribers[other]
            &&& final(peer)@.next_id > id
        }),
        final(peer)@.pending == old(peer)@.pending,
        final(peer)@.requests == old(peer)@.requests,
        final(peer)@.unmatched == old(peer)@.unmatched,
        final(peer)@.closed == old(peer)@.closed,
{
}

/// Ending a subscription takes it out and leaves everything else.
pub proof fn law_unsubscribing_takes_one_subscription(peer: &mut Peer, id: u64, other: u64)
    requires
        call_ensures(Peer::unsubscribe, (peer, id), ()),
    ensures
        !final(peer)@.subscribers.contains_key(id),
        other != id ==> final(peer)@.subscribers.contains_key(other)
            == old(peer)@.subscribers.contains_key(other),
        other != id && old(peer)@.subscribers.contains_key(other) ==> final(peer)@.subscribers[other] == old(peer)@.subscribers[other],
        final(peer)@.unmatched == old(peer)@.unmatched,
        final(peer)@.pending == old(peer)@.pending,
        final(peer)@.requests == old(peer)@.requests,
        final(peer)@.closed == old(peer)@.closed,
        final(peer)@.next_id == old(peer)@.next_id,
{
}

/// Opening the unmatched queue gives it an id of its own and nothing in it; it has ended exactly
/// where the transport is closed. A queue that was open before is kept under its id, and every
/// other subscription stays.
pub proof fn law_the_unmatched_queue_opens_empty(
    peer: &mut Peer,
    subscription: NotificationSubscription,
    other: u64,
)
    requires
        call_ensures(Peer::subscribe_default, (peer,), subscription),
        old(peer)@.consistent(),
        old(peer)@.next_id < u64::MAX,
    ensures
        !old(peer)@.subscribers.contains_key(subscription.id),
        final(peer)@.unmatched matches Some(unmatched) && unmatched.id == subscription.id
            && unmatched.inbox.queue.len() == 0 && unmatched.inbox.ended == old(peer)@.closed
            && !unmatched.inbox.superseded,
        old(peer)@.unmatched matches Some(older) ==> older.id != subscription.id && final(peer)@.subscribers.contains_key(older.id) && final(peer)@.subscribers[older.id].inbox.queue
            == older.inbox.queue && final(peer)@.subscribers[older.id].inbox.ended
            == older.inbox.ended && final(peer)@.subscribers[older.id].inbox.superseded,
        old(peer)@.subscribers.contains_key(other) ==> final(peer)@.subscribers.contains_key(other)
            && final(peer)@.subscribers[other] == old(peer)@.subscribers[other],
        final(peer)@.pending == old(peer)@.pending,
        final(peer)@.requests == old(peer)@.requests,
        final(peer)@.closed == old(peer)@.closed,
        final(peer)@.next_id > subscription.id,
{
}

/// A transport begins open, with nothing awaited, subscribed to or queued.
pub proof fn law_a_transport_begins_empty(request_timeout: Option<u64>, peer: Peer, id: u64)
    requires
        call_ensures(Peer::new, (request_timeout,), peer),
    ensures
        peer@.pending.dom().is_empty(),
        !peer@.subscribers.contains_key(id),
        peer@.unmatched is None,
        peer@.requests.len() == 0,
        peer@.closed is None,
        peer@.request_timeout == request_timeout,
{
}

/// A request is refused on a closed transport with the closing error. Otherwise it is written under
/// its id with its method and params, and awaited under that id from then on, beside what was
/// awaited already.
pub proof fn law_a_request_is_written_and_awaited(
    peer: &mut Peer,
    id: String,
    method: &str,
    params: Option<Json>,
    timeout: Option<u64>,
    result: Result<OutgoingRequest, SdkError>,
    other: Seq<char>,
)
    requires
        call_ensures(Peer::request_as, (peer, id, method, params, timeout), result),
    ensures
        old(peer)@.closed matches Some(error) ==> (result matches Err(refused) && refused@ == error)
            && final(peer)@ == old(peer)@,
        old(peer)@.closed is None ==> (result matches Ok(request) && {
            &&& request.id@ == id@
            &&& request.timeout == timeout
            &&& request.line@ == crate::trusted::json::json_text(
                request_frame(id@, method@, opt_tree(params)),
            )
            &&& final(peer)@.pending.contains_key(id@)
            &&& final(peer)@.pending[id@] == method@
            &&& other != id@ ==> final(peer)@.pending.contains_key(other)
                == old(peer)@.pending.contains_key(other)
            &&& other != id@ && old(peer)@.pending.contains_key(other) ==> final(
                peer
            )@.pending[other] == old(peer)@.pending[other]
        }),
        final(peer)@.subscribers == old(peer)@.subscribers,
        final(peer)@.unmatched == old(peer)@.unmatched,
        final(peer)@.requests == old(peer)@.requests,
        final(peer)@.closed == old(peer)@.closed,
{
}

/// A request under a drawn id waits as long as the transport was set up for, unless it names a
/// deadline of its own, and is otherwise sent as under a given id.
pub proof fn law_deadlines_are_the_named_or_the_configured_ones(
    peer: &mut Peer,
    method: &str,
    params: Option<Json>,
    result: Result<OutgoingRequest, SdkError>,
    timed: &mut Peer,
    timeout: Option<u64>,
    timed_result: Result<OutgoingRequest, SdkError>,
)
    requires
        call_ensures(Peer::request, (peer, method, params), result),
        call_ensures(Peer::request_with_timeout, (timed, method, params, timeout), timed_result),
    ensures
        result is Ok <==> old(peer)@.closed is None,
        timed_result is Ok <==> old(timed)@.closed is None,
        result matches Ok(request) ==> request.timeout == old(peer)@.request_timeout
            && final(peer)@ == (PeerView {
            pending: old(peer)@.pending.insert(request.id@, method@),
            ..old(peer)@
        }) && carries(request.line@, request_frame(request.id@, method@, opt_tree(params))),
        timed_result matches Ok(request) ==> request.timeout == timeout && final(timed)@ == (
        PeerView {
            pending: old(timed)@.pending.insert(request.id@, method@),
            ..old(timed)@
        }) && carries(request.line@, request_frame(request.id@, method@, opt_tree(params))),
        result matches Err(error) ==> Some(error@) == old(peer)@.closed,
        timed_result matches Err(error) ==> Some(error@) == old(timed)@.closed,
{
}

/// What a line comes to: a response completes the request that awaits it and no other, and one that
/// nothing awaits does nothing; a request joins the queue; a notification is given back; and any
/// other line does nothing. No line touches a subscription.
pub proof fn law_each_line_does_its_part(
    peer: &mut Peer,
    line: &str,
    received: Received,
    other: Seq<char>,
)
    requires
        call_ensures(Peer::receive, (peer, line), received),
    ensures
        match line_frame(line@) {
            FrameView::Response { key, outcome } => if old(peer)@.pending.contains_key(key) {
                &&& received matches Received::Completed { id, outcome: got } && id@ == key
                    && outcome_view(got) == outcome
                &&& !final(peer)@.pending.contains_key(key)
                &&& other != key ==> final(peer)@.pending.contains_key(other)
                    == old(peer)@.pending.contains_key(other)
                &&& other != key && old(peer)@.pending.contains_key(other) ==> final(
                    peer
                )@.pending[other] == old(peer)@.pending[other]
                &&& final(peer)@.requests == old(peer)@.requests
            } else {
                received is Nothing && final(peer)@ == old(peer)@
            },
            FrameView::Request(request) => {
                &&& received is Requested
                &&& final(peer)@.requests == old(peer)@.requests.push(
                    IncomingView::Request(request),
                )
                &&& final(peer)@.pending == old(peer)@.pending
            },
            FrameView::Notification(notification) => {
                &&& received matches Received::Notification(got) && got@ == notification
                &&& final(peer)@ == old(peer)@
            },
            FrameView::Ignored => received is Nothing && final(peer)@ == old(peer)@,
        },
        final(peer)@.subscribers == old(peer)@.subscribers,
        final(peer)@.unmatched == old(peer)@.unmatched,
        final(peer)@.closed == old(peer)@.closed,
        final(peer)@.request_timeout == old(peer)@.request_timeout,
        final(peer)@.next_id == old(peer)@.next_id,
{
}

/// A request that is given up is awaited no more, and the others still are. One whose deadline has
/// passed fails with a timeout that names its method and carries the diagnostics, and one that is
/// no longer awaited does not fail again.
pub proof fn law_a_request_is_given_up_alone(
    peer: &mut Peer,
    id: &str,
    exit_code: Option<i32>,
    stderr_tail: Vec<String>,
    late: Option<SdkError>,
    other: Seq<char>,
)
    requires
        call_ensures(Peer::expire, (peer, id, exit_code, &stderr_tail), late),
    ensures
        !final(peer)@.pending.contains_key(id@),
        other != id@ ==> final(peer)@.pending.contains_key(other)
            == old(peer)@.pending.contains_key(other),
        other != id@ && old(peer)@.pending.contains_key(other) ==> final(peer)@.pending[other]
            == old(peer)@.pending[other],
        late is Some <==> old(peer)@.pending.contains_key(id@),
        late matches Some(error) ==> (error matches SdkError::RequestTimeout { message } && message@
            == report(
            old(peer)@.pending[id@] + " timed out waiting for DeepSeek Harness runtime"@,
            exit_code,
            texts(stderr_tail@),
        )),
        final(peer)@ == (PeerView { pending: final(peer)@.pending, ..old(peer)@ }),
{
}

/// A frame that cannot be written fails with the error that closed the transport, or with the report
/// that stdin is closed; a request is then awaited no more.
pub proof fn law_what_cannot_be_written_fails(
    peer: &mut Peer,
    id: &str,
    error: SdkError,
    plain: SdkError,
    other: Seq<char>,
)
    requires
        call_ensures(Peer::write_failed, (peer, id), error),
        call_ensures(Peer::write_error, (&*old(peer),), plain),
    ensures
        plain@ == error@,
        match old(peer)@.closed {
            Some(closed) => error@ == closed,
            None => error@ == closed_view("DeepSeek Harness runtime stdin closed"@, None, seq![]),
        },
        !final(peer)@.pending.contains_key(id@),
        other != id@ ==> final(peer)@.pending.contains_key(other)
            == old(peer)@.pending.contains_key(other),
        final(peer)@ == (PeerView { pending: final(peer)@.pending, ..old(peer)@ }),
{
}

/// Closing an open transport fails every awaited request, each named once, and ends every
/// subscription and the unmatched queue with the error, behind what they had; those that had ended
/// before keep their own error. Closing it again changes nothing.
pub proof fn law_closing_ends_all_there_is(
    peer: &mut Peer,
    error: SdkError,
    failed: Vec<String>,
    request: Seq<char>,
    id: u64,
)
    requires
        call_ensures(Peer::fail_closed, (peer, &error), failed),
    ensures
        texts(failed@).no_duplicates(),
        texts(failed@).contains(request) <==> old(peer)@.pending.contains_key(request),
        old(peer)@.closed is Some ==> final(peer)@ == old(peer)@,
        old(peer)@.closed is None ==> {
            &&& final(peer)@.closed == Some(error@)
            &&& !final(peer)@.pending.contains_key(request)
            &&& final(peer)@.subscribers.contains_key(id) <==> old(peer)@.subscribers.contains_key(id)
            &&& old(peer)@.subscribers.contains_key(id) ==> {
                let before = old(peer)@.subscribers[id];
                let after = final(peer)@.subscribers[id];
                &&& after.filter == before.filter
                &&& after.inbox.queue == before.inbox.queue
                &&& before.inbox.ended is Some ==> after.inbox.ended == before.inbox.ended
                &&& before.inbox.ended is None ==> after.inbox.ended == Some(error@)
            }
            &&& old(peer)@.unmatched matches Some(before) ==> (final(peer)@.unmatched matches Some(
                after,
            ) && after.id == before.id && after.inbox.queue == before.inbox.queue && (
            before.inbox.ended is None ==> after.inbox.ended == Some(error@)))
            &&& final(peer)@.requests.len() == old(peer)@.requests.len() + 1
            &&& final(peer)@.requests.drop_last() == old(peer)@.requests
            &&& final(peer)@.requests.last() == IncomingView::Closed(error@)
        },
        final(peer)@.next_id == old(peer)@.next_id,
        final(peer)@.request_timeout == old(peer)@.request_timeout,
{
    if old(peer)@.closed is None {
        assert(final(peer)@.requests.drop_last() =~= old(peer)@.requests);
    }
}

/// The queue of server-to-client requests is taken in order, each item once: a request as it came,
/// and the closing error where the transport closed.
pub proof fn law_requests_are_taken_in_order(peer: &mut Peer, delivery: RequestDelivery)
    requires
        call_ensures(Peer::next_request, (peer,), delivery),
    ensures
        old(peer)@.requests.len() == 0 ==> delivery is Waiting && final(peer)@ == old(peer)@,
        old(peer)@.requests.len() > 0 ==> final(peer)@ == (PeerView {
            requests: old(peer)@.requests.drop_first(),
            ..old(peer)@
        }) && match old(peer)@.requests[0] {
            IncomingView::Request(request) => delivery matches RequestDelivery::Ready(got) && got@
                == request,
            IncomingView::Closed(error) => delivery matches RequestDelivery::Ended(got) && got@
                == error,
        },
{
}

/// Notifications and answers are refused on a closed transport with the closing error, and written
/// otherwise.
pub proof fn law_other_frames_are_written_while_open(
    peer: Peer,
    method: &str,
    params: Option<Json>,
    notified: Result<String, SdkError>,
    id: Json,
    result: Json,
    answered: Result<String, SdkError>,
    code: i64,
    message: &str,
    data: Option<Json>,
    refused: Result<String, SdkError>,
)
    requires
        call_ensures(Peer::notify, (&peer, method, params), notified),
        call_ensures(Peer::respond, (&peer, &id, result), answered),
        call_ensures(Peer::respond_error, (&peer, &id, code, message, data), refused),
    ensures
        peer@.closed matches Some(error) ==> (notified matches Err(first) && first@ == error) && (
        answered matches Err(second) && second@ == error) && (refused matches Err(third) && third@
            == error),
        peer@.closed is None ==> (notified matches Ok(line) && carries(
            line@,
            notification_frame(method@, opt_tree(params)),
        )) && (answered matches Ok(line) && carries(line@, response_frame(id@, result@))) && (
        refused matches Ok(line) && carries_error(line@, id@, code, message@, opt_tree(data))),
{
}

/// Polling a subscription gives its oldest notification, and nothing where it has none; a waiting
/// call gives the same notification.
pub proof fn law_polling_gives_the_oldest_notification(
    subscription: &mut NotificationSubscription,
    peer: &mut Peer,
    polled: Option<Notification>,
)
    requires
        call_ensures(NotificationSubscription::try_next, (subscription, peer), polled),
        old(peer)@.subscribers.contains_key(old(subscription).id),
        !(old(peer)@.unmatched matches Some(unmatched) && unmatched.id == old(subscription).id),
    ensures
        ({
            let queue = old(peer)@.subscribers[old(subscription).id].inbox.queue;
            &&& polled is Some <==> queue.len() > 0
            &&& polled matches Some(notification) ==> notification@ == queue[0]
            &&& queue.len() > 0 ==> final(peer)@.subscribers[old(subscription).id].inbox.queue
                == queue.drop_first()
            &&& final(subscription).id == old(subscription).id
        }),
{
}

/// Waiting on a subscription gives what taking from it gives.
pub proof fn law_waiting_gives_the_oldest_notification(
    subscription: &mut NotificationSubscription,
    peer: &mut Peer,
    delivery: Delivery,
)
    requires
        call_ensures(NotificationSubscription::next, (subscription, peer), delivery),
        old(peer)@.subscribers.contains_key(old(subscription).id),
        !(old(peer)@.unmatched matches Some(unmatched) && unmatched.id == old(subscription).id),
    ensures
        ({
            let inbox = old(peer)@.subscribers[old(subscription).id].inbox;
            &&& delivery is Ready <==> inbox.queue.len() > 0
            &&& delivery matches Delivery::Ready(notification) ==> notification@ == inbox.queue[0]
                && final(peer)@.subscribers[old(subscription).id].inbox.queue
                == inbox.queue.drop_first()
            &&& inbox.queue.len() == 0 && inbox.ended is Some ==> (delivery matches Delivery::Ended(
                error,
            ) && Some(error@) == inbox.ended)
            &&& final(subscription).id == old(subscription).id
        }),
{
}

/// A transport gives the error that closed it, and has room as long as there is an id left.
pub proof fn law_a_transport_says_why_it_is_closed(peer: Peer, error: Option<SdkError>, room: bool)
    requires
        call_ensures(Peer::closed_error, (&peer,), error),
        call_ensures(Peer::has_room, (&peer,), room),
    ensures
        error is Some <==> peer@.closed is Some,
        error matches Some(found) ==> peer@.closed == Some(found@),
        room <==> peer@.next_id < u64::MAX,
{
}

} // verus!
