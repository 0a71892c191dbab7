//! The loop that serves one streaming call, as a state machine.
//!
//! The caller owns the inbound stream, the delivery mailbox and the
//! outbound queue. It performs the action that the machine names, waits
//! for it to finish, and reports how it went. The machine decides what
//! comes next and keeps, as ghost state, a log of what it has read and
//! answered, from which the laws of the stream are proved.

use crate::send::{acknowledge, invalid_request, reject, send_failure, Msg, SendRequest, SendResponse, Sender};
use crate::status::{Code, Status};
use crate::time::{to_ts, NANOS_LIMIT};
use vstd::prelude::*;

verus! {

/// How many results the outbound queue of one call holds before the
/// dispatcher has to wait.
pub const CHANNEL_SIZE: usize = 1024;

/// How many messages the delivery mailbox holds; it is shared by all calls.
pub const MAILBOX_SIZE: usize = CHANNEL_SIZE * 100;

/// What reading the inbound stream gave.
pub enum Inbound<T> {
    /// The next item.
    Item(T),
    /// The transport reported an error in place of an item.
    Failed,
    /// The stream is over.
    Ended,
}

/// Why dispatch is over.
#[derive(Clone, Copy, Debug, PartialEq, Eq, Structural)]
pub enum Stop {
    /// The inbound stream came to its end.
    InputEnded,
    /// The transport failed while the next item was read.
    TransportFailed,
    /// Nobody takes results from the outbound queue any more.
    ConsumerGone,
}

/// What the dispatcher is waiting for.
#[derive(Clone, Copy, Debug, PartialEq, Eq, Structural)]
pub enum Phase {
    /// The next item of the inbound stream.
    Reading,
    /// Word from the mailbox on the message just handed to it.
    Delivering,
    /// Word from the outbound queue on the result just handed to it.
    Pushing,
    /// Nothing: dispatch is over.
    Stopped(Stop),
}

/// What the caller is to do next.
#[derive(Debug, PartialEq, Eq)]
pub enum Action {
    /// Read the inbound stream and report with `on_input`.
    Read,
    /// Put the message in the delivery mailbox, waiting while it is full,
    /// and report with `on_enqueued`.
    Enqueue(Msg),
    /// Put the result in the outbound queue, waiting while it is full, and
    /// report with `on_pushed`.
    Push(Result<SendResponse, Status>),
    /// End the task. Nothing more goes to the outbound queue.
    Halt,
}

/// How one item was dealt with.
pub enum Handling {
    /// It named no known kind and went nowhere.
    Rejected,
    /// The mailbox took its message.
    Taken,
    /// The mailbox was closed.
    Refused,
}

/// Whether `answer` is the right result for `request`, given how the
/// request was dealt with.
pub open spec fn answers(
    request: SendRequest,
    how: Handling,
    answer: Result<SendResponse, Status>,
) -> bool {
    match how {
        Handling::Rejected => request.msg is None && answer is Err && answer->Err_0.has(
            Code::InvalidArgument,
            invalid_request(),
        ),
        Handling::Taken => {
            &&& request.msg is Some
            &&& answer is Ok
            &&& answer->Ok_0.message_id@ == request.msg->0.id()
            &&& answer->Ok_0.timestamp is Some
            &&& 0 <= answer->Ok_0.timestamp->0.nanos < NANOS_LIMIT
        },
        Handling::Refused => request.msg is Some && answer is Err && answer->Err_0.has(
            Code::Internal,
            send_failure(),
        ),
    }
}

/// The dispatcher of one call to the notification service.
pub struct Dispatcher {
    phase: Phase,
    pending: Option<String>,
    read: Ghost<Seq<SendRequest>>,
    handled: Ghost<Seq<Handling>>,
    pushed: Ghost<Seq<Result<SendResponse, Status>>>,
    taken: Ghost<nat>,
}

impl Dispatcher {
    /// What the dispatcher is waiting for.
    pub closed spec fn state(self) -> Phase {
        self.phase
    }

    /// The items read so far, in order.
    pub closed spec fn read(self) -> Seq<SendRequest> {
        self.read@
    }

    /// How each answered item was dealt with, in order.
    pub closed spec fn handled(self) -> Seq<Handling> {
        self.handled@
    }

    /// The results handed to the outbound queue so far, in order.
    pub closed spec fn pushed(self) -> Seq<Result<SendResponse, Status>> {
        self.pushed@
    }

    /// How many of the results the outbound queue has taken.
    pub closed spec fn taken(self) -> nat {
        self.taken@
    }

    /// Whether a result is with the caller that the outbound queue has
    /// not taken: the caller is waiting for room, or has found the
    /// consumer gone.
    pub open spec fn holds_back(self) -> bool {
        self.state() == Phase::Pushing || self.state() == Phase::Stopped(Stop::ConsumerGone)
    }

    /// The log is consistent: every item but perhaps the one in the
    /// mailbox has its result, at its own position, and the result is the
    /// right one for the item.
    pub closed spec fn wf(self) -> bool {
        &&& self.pushed@.len() == self.handled@.len()
        &&& forall|i: int|
            0 <= i < self.pushed@.len() ==> i < self.read@.len() && answers(
                self.read@[i],
                self.handled@[i],
                #[trigger] self.pushed@[i],
            )
        &&& match self.phase {
            Phase::Delivering => {
                &&& self.read@.len() == self.pushed@.len() + 1
                &&& self.read@.last().msg is Some
                &&& self.pending is Some
                &&& self.pending->0@ == self.read@.last().msg->0.id()
            },
            _ => self.read@.len() == self.pushed@.len() && self.pending is None,
        }
        &&& self.pushed@.len() == self.taken@ + if self.holds_back() {
            1nat
        } else {
            0nat
        }
    }

    /// A dispatcher that has read nothing yet. The caller starts by
    /// reading the inbound stream.
    pub fn new() -> (dispatcher: Dispatcher)
        ensures
            dispatcher.wf(),
            dispatcher.state() == Phase::Reading,
            dispatcher.read().len() == 0,
            dispatcher.pushed().len() == 0,
            dispatcher.taken() == 0,
    {
        Dispatcher {
            phase: Phase::Reading,
            pending: None,
            read: Ghost(Seq::empty()),
            handled: Ghost(Seq::empty()),
            pushed: Ghost(Seq::empty()),
            taken: Ghost(0),
        }
    }

    pub fn phase(&self) -> (phase: Phase)
        ensures
            phase == self.state(),
    {
        self.phase
    }

    /// Takes what reading the inbound stream gave. An item with a message
    /// goes to the mailbox; an item without one is answered at once with
    /// an invalid-argument failure; an error of the transport and the end
    /// of the stream both end dispatch, and neither is answered.
    pub fn on_input(&mut self, input: Inbound<SendRequest>) -> (action: Action)
        requires
            old(self).wf(),
            old(self).state() == Phase::Reading,
        ensures
            final(self).wf(),
            final(self).taken() == old(self).taken(),
            match input {
                Inbound::Item(request) => {
                    &&& final(self).read() == old(self).read().push(request)
                    &&& match request.msg {
                        Some(msg) => {
                            &&& action == Action::Enqueue(msg)
                            &&& final(self).state() == Phase::Delivering
                            &&& final(self).pushed() == old(self).pushed()
                            &&& final(self).handled() == old(self).handled()
                        },
                        None => {
                            &&& action matches Action::Push(Err(status))
                            &&& status.has(Code::InvalidArgument, invalid_request())
                            &&& final(self).state() == Phase::Pushing
                            &&& final(self).pushed() == old(self).pushed().push(Err(status))
                            &&& final(self).handled() == old(self).handled().push(
                                Handling::Rejected,
                            )
                        },
                    }
                },
                Inbound::Failed => {
                    &&& action == Action::Halt
                    &&& final(self).state() == Phase::Stopped(Stop::TransportFailed)
                    &&& final(self).read() == old(self).read()
                    &&& final(self).pushed() == old(self).pushed()
                    &&& final(self).handled() == old(self).handled()
                },
                Inbound::Ended => {
                    &&& action == Action::Halt
                    &&& final(self).state() == Phase::Stopped(Stop::InputEnded)
                    &&& final(self).read() == old(self).read()
                    &&& final(self).pushed() == old(self).pushed()
                    &&& final(self).handled() == old(self).handled()
                },
            },
    {
        match input {
            Inbound::Item(request) => {
                self.read = Ghost(self.read@.push(request));
                match request.msg {
                    Some(msg) => {
                        let (message_id, parcel) = msg.send();
                        self.pending = Some(message_id);
                        self.phase = Phase::Delivering;
                        Action::Enqueue(parcel)
                    },
                    None => {
                        let answer: Result<SendResponse, Status> = Err(reject());
                        self.handled = Ghost(self.handled@.push(Handling::Rejected));
                        self.pushed = Ghost(self.pushed@.push(answer));
                        self.phase = Phase::Pushing;
                        Action::Push(answer)
                    },
                }
            },
            Inbound::Failed => {
                self.phase = Phase::Stopped(Stop::TransportFailed);
                Action::Halt
            },
            Inbound::Ended => {
                self.phase = Phase::Stopped(Stop::InputEnded);
                Action::Halt
            },
        }
    }

    /// Takes the word of the mailbox on the message handed to it. Either
    /// way the item gets its result: an acknowledgement under the
    /// message's id, stamped with the time of this call, or an internal
    /// failure. The mailbox is tried once.
    pub fn on_enqueued(&mut self, taken: bool) -> (action: Action)
        requires
            old(self).wf(),
            old(self).state() == Phase::Delivering,
        ensures
            final(self).wf(),
            final(self).state() == Phase::Pushing,
            final(self).read() == old(self).read(),
            final(self).taken() == old(self).taken(),
            action matches Action::Push(answer) && {
                &&& final(self).pushed() == old(self).pushed().push(answer)
                &&& final(self).handled() == old(self).handled().push(
                    if taken {
                        Handling::Taken
                    } else {
                        Handling::Refused
                    },
                )
                &&& answers(old(self).read().last(), final(self).handled().last(), answer)
            },
    {
        let message_id = self.pending.take().unwrap();
        let answer = acknowledge(message_id, taken, to_ts());
        let ghost how = if taken {
            Handling::Taken
        } else {
            Handling::Refused
        };
        self.handled = Ghost(self.handled@.push(how));
        self.pushed = Ghost(self.pushed@.push(answer));
        self.phase = Phase::Pushing;
        Action::Push(answer)
    }

    /// Takes the word of the outbound queue on the result handed to it.
    /// While the queue is full the caller waits and does not report, so
    /// the result stays with the caller and nothing further is read. The
    /// next item is read only once the result has been taken; where nobody
    /// takes results any more, dispatch is over.
    pub fn on_pushed(&mut self, taken: bool) -> (action: Action)
        requires
            old(self).wf(),
            old(self).state() == Phase::Pushing,
        ensures
            final(self).wf(),
            final(self).read() == old(self).read(),
            final(self).pushed() == old(self).pushed(),
            final(self).handled() == old(self).handled(),
            taken ==> action == Action::Read && final(self).state() == Phase::Reading
                && final(self).taken() == old(self).taken() + 1,
            !taken ==> action == Action::Halt && final(self).state() == Phase::Stopped(
                Stop::ConsumerGone,
            ) && final(self).taken() == old(self).taken(),
    {
        if taken {
            self.taken = Ghost(self.taken@ + 1);
            self.phase = Phase::Reading;
            Action::Read
        } else {
            self.phase = Phase::Stopped(Stop::ConsumerGone);
            Action::Halt
        }
    }

    /// Every result stands at the position of its item and is the right
    /// one for that item alone; at most one item, the one in the
    /// mailbox, is still without its result.
    pub proof fn lemma_one_result_per_item(self)
        requires
            self.wf(),
        ensures
            self.handled().len() == self.pushed().len(),
            self.state() == Phase::Delivering ==> self.read().len() == self.pushed().len() + 1,
            self.state() != Phase::Delivering ==> self.read().len() == self.pushed().len(),
            forall|i: int|
                0 <= i < self.pushed().len() ==> answers(
                    self.read()[i],
                    self.handled()[i],
                    #[trigger] self.pushed()[i],
                ),
    {
    }

    /// The dispatcher never runs ahead of the outbound queue. Of the
    /// results handed out, all but at most one have been taken, and the
    /// one that has not is the last and still with the caller: it is
    /// neither dropped nor overtaken. The items read are at most one more
    /// than the results taken. So behind a queue that has taken its fill
    /// of `k` results and takes no more, the dispatcher has read at most
    /// `k + 1` items, waits with result `k + 1`, and reads nothing.
    pub proof fn lemma_waits_for_the_queue(self)
        requires
            self.wf(),
        ensures
            self.taken() <= self.pushed().len() <= self.taken() + 1,
            self.pushed().len() == self.taken() + 1 <==> self.holds_back(),
            self.read().len() <= self.taken() + 1,
            self.state() == Phase::Reading ==> self.read().len() == self.taken(),
    {
    }

    /// Where every item read carries a message and the mailbox has turned
    /// none down, the results are acknowledgements, as many as the items
    /// that were answered and in their order, each under the id of its
    /// own message. Messages with different ids are then acknowledged
    /// under different ids.
    pub proof fn lemma_acknowledged_in_order(self)
        requires
            self.wf(),
            forall|i: int| 0 <= i < self.read().len() ==> (#[trigger] self.read()[i]).msg is Some,
            forall|i: int| 0 <= i < self.handled().len() ==> !(#[trigger] self.handled()[i] is Refused),
        ensures
            self.state() != Phase::Delivering ==> self.pushed().len() == self.read().len(),
            forall|i: int|
                0 <= i < self.pushed().len() ==> {
                    &&& (#[trigger] self.pushed()[i]) is Ok
                    &&& self.pushed()[i]->Ok_0.message_id@ == self.read()[i].msg->0.id()
                },
            forall|i: int, j: int|
                0 <= i < self.pushed().len() && 0 <= j < self.pushed().len()
                    && self.read()[i].msg->0.id() != self.read()[j].msg->0.id() ==> (
                #[trigger] self.pushed()[i])->Ok_0.message_id@ != (
                #[trigger] self.pushed()[j])->Ok_0.message_id@,
    {
        assert forall|i: int| 0 <= i < self.pushed().len() implies {
            &&& (#[trigger] self.pushed()[i]) is Ok
            &&& self.pushed()[i]->Ok_0.message_id@ == self.read()[i].msg->0.id()
        } by {
            assert(answers(self.read()[i], self.handled()[i], self.pushed()[i]));
            assert(self.read()[i].msg is Some);
            assert(!(self.handled()[i] is Refused));
        }
    }

    /// An item of no known kind has an invalid-argument failure at its own
    /// position, whatever stands before and after it: every other result
    /// is still the right one for its own item.
    pub proof fn lemma_unknown_kind_rejected_in_place(self, at: int)
        requires
            self.wf(),
            0 <= at < self.pushed().len(),
            self.read()[at].msg is None,
        ensures
            self.pushed()[at] is Err,
            self.pushed()[at]->Err_0.has(Code::InvalidArgument, invalid_request()),
            forall|i: int|
                0 <= i < self.pushed().len() && i != at ==> answers(
                    self.read()[i],
                    self.handled()[i],
                    #[trigger] self.pushed()[i],
                ),
    {
        assert(answers(self.read()[at], self.handled()[at], self.pushed()[at]));
    }
}

} // verus!
