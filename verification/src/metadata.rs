//! Content records and the text that stands for them in a message.

use crate::text::{debug_str, debug_text, decimal, join, joined, push_decimal, push_signed_decimal, signed_decimal, views};
use crate::dispatch::{Inbound, Phase, Stop};
use crate::sample::{any_i32, days_ago, fake_between, person_name, pick_between, sentence};
use crate::time::Timestamp;
use vstd::prelude::*;
use vstd::string::*;

verus! {

/// Who published a piece of content.
#[derive(Clone, Debug, PartialEq, Eq)]
pub struct Publisher {
    pub id: u32,
    pub name: String,
    pub avatar: String,
}

/// A piece of content with its figures.
#[derive(Clone, Debug, PartialEq, Eq)]
pub struct Content {
    pub id: u32,
    pub name: String,
    pub description: String,
    pub publishers: Vec<Publisher>,
    pub url: String,
    pub image: String,
    pub content_type: i32,
    pub created_at: Option<Timestamp>,
    pub views: u32,
    pub likes: u32,
    pub dislikes: u32,
}

/// Contents that together make the body of one message.
pub struct Tpl<'a>(pub &'a [Content]);

/// The separator between two items of a list.
pub open spec fn comma() -> Seq<char> {
    ", "@
}

/// A publisher written out field by field.
pub open spec fn publisher_text(p: Publisher) -> Seq<char> {
    "Publisher { id: "@ + decimal(p.id as nat) + ", name: "@ + debug_text(p.name@) + ", avatar: "@
        + debug_text(p.avatar@) + " }"@
}

pub open spec fn publisher_texts(publishers: Seq<Publisher>) -> Seq<Seq<char>> {
    Seq::new(publishers.len(), |i: int| publisher_text(publishers[i]))
}

/// An instant that may be missing, written out.
pub open spec fn created_text(at: Option<Timestamp>) -> Seq<char> {
    match at {
        Some(ts) => "Some(Timestamp { seconds: "@ + signed_decimal(ts.seconds as int) + ", nanos: "@
            + signed_decimal(ts.nanos as int) + " })"@,
        None => "None"@,
    }
}

/// A content written out field by field.
pub open spec fn content_text(c: Content) -> Seq<char> {
    "Content { id: "@ + decimal(c.id as nat) + ", name: "@ + debug_text(c.name@)
        + ", description: "@ + debug_text(c.description@) + ", publishers: ["@ + joined(
        publisher_texts(c.publishers@),
        comma(),
    ) + "], url: "@ + debug_text(c.url@) + ", image: "@ + debug_text(c.image@) + ", r#type: "@
        + signed_decimal(c.content_type as int) + ", created_at: "@ + created_text(c.created_at)
        + ", views: "@ + decimal(c.views as nat) + ", likes: "@ + decimal(c.likes as nat)
        + ", dislikes: "@ + decimal(c.dislikes as nat) + " }"@
}

pub open spec fn content_texts(contents: Seq<Content>) -> Seq<Seq<char>> {
    Seq::new(contents.len(), |i: int| content_text(contents[i]))
}

impl Publisher {
    /// Writes the publisher out field by field.
    pub fn to_text(&self) -> (text: String)
        ensures
            text@ == publisher_text(*self),
    {
        let mut text = String::from_str("Publisher { id: ");
        push_decimal(&mut text, self.id as u64);
        text.append(", name: ");
        text.append(debug_str(self.name.as_str()).as_str());
        text.append(", avatar: ");
        text.append(debug_str(self.avatar.as_str()).as_str());
        text.append(" }");
        text
    }
}

impl Content {
    /// Writes the content out field by field.
    pub fn to_text(&self) -> (text: String)
        ensures
            text@ == content_text(*self),
    {
        let mut publishers: Vec<String> = Vec::new();
        let mut i: usize = 0;
        while i < self.publishers.len()
            invariant
                i <= self.publishers.len(),
                publishers@.len() == i,
                forall|k: int|
                    0 <= k < i ==> (#[trigger] publishers@[k])@ == publisher_text(
                        self.publishers@[k],
                    ),
            decreases self.publishers.len() - i,
        {
            publishers.push(self.publishers[i].to_text());
            i += 1;
        }
        assert(views(publishers@) =~= publisher_texts(self.publishers@));
        let mut text = String::from_str("Content { id: ");
        push_decimal(&mut text, self.id as u64);
        text.append(", name: ");
        text.append(debug_str(self.name.as_str()).as_str());
        text.append(", description: ");
        text.append(debug_str(self.description.as_str()).as_str());
        text.append(", publishers: [");
        text.append(join(&publishers, ", ").as_str());
        text.append("], url: ");
        text.append(debug_str(self.url.as_str()).as_str());
        text.append(", image: ");
        text.append(debug_str(self.image.as_str()).as_str());
        text.append(", r#type: ");
        push_signed_decimal(&mut text, self.content_type as i64);
        text.append(", created_at: ");
        match self.created_at {
            Some(ts) => {
                text.append("Some(Timestamp { seconds: ");
                push_signed_decimal(&mut text, ts.seconds);
                text.append(", nanos: ");
                push_signed_decimal(&mut text, ts.nanos as i64);
                text.append(" })");
            },
            None => {
                text.append("None");
            },
        }
        text.append(", views: ");
        push_decimal(&mut text, self.views as u64);
        text.append(", likes: ");
        push_decimal(&mut text, self.likes as u64);
        text.append(", dislikes: ");
        push_decimal(&mut text, self.dislikes as u64);
        text.append(" }");
        text
    }

    /// The body of a message about this one content.
    pub fn to_body(&self) -> (body: String)
        ensures
            body@ == "Content: "@ + content_text(*self),
    {
        let mut body = String::from_str("Content: ");
        body.append(self.to_text().as_str());
        body
    }
}

impl<'a> Tpl<'a> {
    /// What the body of a message about `contents` holds.
    pub open spec fn body(contents: Seq<Content>) -> Seq<char> {
        "Tpl: ["@ + joined(content_texts(contents), comma()) + "]"@
    }

    /// The body of a message about these contents, in their order.
    pub fn to_body(&self) -> (body: String)
        ensures
            body@ == Self::body(self.0@),
    {
        let mut texts: Vec<String> = Vec::new();
        let mut i: usize = 0;
        while i < self.0.len()
            invariant
                i <= self.0.len(),
                texts@.len() == i,
                forall|k: int| 0 <= k < i ==> (#[trigger] texts@[k])@ == content_text(self.0@[k]),
            decreases self.0.len() - i,
        {
            texts.push(self.0[i].to_text());
            i += 1;
        }
        assert(views(texts@) =~= content_texts(self.0@));
        let mut body = String::from_str("Tpl: [");
        body.append(join(&texts, ", ").as_str());
        body.append("]");
        body
    }
}

/// The address of the picture that every content shows.
pub open spec fn placeholder_image() -> Seq<char> {
    "https://placehold.co/1600x900"@
}

/// The address of the picture that every publisher shows.
pub open spec fn placeholder_avatar() -> Seq<char> {
    "https://placehold.co/400x400"@
}

/// How many seconds a minute has.
pub const MINUTE: i64 = 60;

/// The instant `days` days before now: there is one as far back as `FAR_BACK` days at least.
pub fn before(days: u64) -> (at: Option<Timestamp>)
    ensures
        days <= crate::sample::FAR_BACK ==> at is Some,
        at is Some ==> at->0.renders() && 0 <= at->0.nanos < crate::time::NANOS_LIMIT,
{
    match days_ago(days) {
        Some((seconds, nanos)) => Some(Timestamp { seconds, nanos: nanos as i32 }),
        None => None,
    }
}

/// The instant `minutes` whole minutes after `start`.
pub open spec fn minutes_after(start: Timestamp, minutes: int) -> Timestamp {
    Timestamp { seconds: (start.seconds + MINUTE * minutes) as i64, nanos: start.nanos }
}

/// The whole minutes from `start` to `end`.
pub open spec fn whole_minutes(start: Timestamp, end: Timestamp) -> int {
    let seconds = end.seconds - start.seconds - if end.nanos < start.nanos {
        1int
    } else {
        0int
    };
    seconds / (MINUTE as int)
}

/// An instant drawn between `start` and `end` in the way of `fake`'s `DateTimeBetween`: `start`
/// and whole minutes, fewer than lie between the two and drawn by `fake`. None under a minute.
pub fn between(start: Timestamp, end: Timestamp) -> (at: Option<Timestamp>)
    ensures
        at is Some <==> 1 <= whole_minutes(start, end),
        at is Some ==> exists|minutes: int|
            0 <= minutes < whole_minutes(start, end) && at->0 == #[trigger] minutes_after(
                start,
                minutes,
            ),
        at is Some ==> start.seconds <= at->0.seconds <= end.seconds && at->0.nanos == start.nanos,
{
    if end.seconds < start.seconds {
        return None;
    }
    let carry: i128 = if end.nanos < start.nanos {
        1
    } else {
        0
    };
    let span: i128 = (end.seconds as i128 - start.seconds as i128 - carry) / (MINUTE as i128);
    if span < 1 {
        return None;
    }
    let minutes = fake_between(0, span as i64);
    let seconds: i64 = (start.seconds as i128 + (MINUTE as i128) * (minutes as i128)) as i64;
    let at = Timestamp { seconds, nanos: start.nanos };
    assert(at == minutes_after(start, minutes as int));
    Some(at)
}

/// An instant drawn from a year ago up to now. There always is one: the
/// calendar reaches a year back, and `drawn_from` gives an instant either way.
pub fn created_at() -> (at: Option<Timestamp>)
    ensures
        at is Some,
        0 <= at->0.nanos < crate::time::NANOS_LIMIT,
{
    let start = before(365).unwrap();
    let end = before(0).unwrap();
    Some(drawn_from(start, end))
}

/// An instant drawn from `start` up to `end`, as `between` draws it. Where
/// less than a minute lies between the two, as when the clock was set back
/// between two readings, it is `start` itself.
pub fn drawn_from(start: Timestamp, end: Timestamp) -> (at: Timestamp)
    ensures
        at.nanos == start.nanos,
        whole_minutes(start, end) < 1 ==> at == start,
        whole_minutes(start, end) >= 1 ==> start.seconds <= at.seconds <= end.seconds
            && exists|minutes: int|
            0 <= minutes < whole_minutes(start, end) && at == #[trigger] minutes_after(
                start,
                minutes,
            ),
{
    match between(start, end) {
        Some(at) => at,
        None => start,
    }
}

impl Publisher {
    /// Whether the publisher is one that `new` can give.
    pub open spec fn made_up(self) -> bool {
        &&& 10_000 <= self.id < 2_000_000
        &&& self.avatar@ == placeholder_avatar()
    }

    /// A made-up publisher.
    pub fn new() -> (publisher: Publisher)
        ensures
            publisher.made_up(),
    {
        Publisher {
            id: fake_between(10_000, 2_000_000) as u32,
            name: person_name(),
            avatar: String::from_str("https://placehold.co/400x400"),
        }
    }
}

impl Content {
    /// Whether the content is one that `materialize` can give for `id`.
    pub open spec fn made_up(self, id: u32) -> bool {
        &&& self.id == id
        &&& 1 <= self.publishers@.len() <= 8
        &&& forall|i: int| 0 <= i < self.publishers@.len() ==> (#[trigger] self.publishers@[i]).made_up()
        &&& self.url@ == placeholder_image()
        &&& self.image@ == placeholder_image()
        &&& 123_432 <= self.views < 10_000_000
        &&& 1_234 <= self.likes < 100_000
        &&& 123 <= self.dislikes < 10_000
        &&& self.created_at is Some
        &&& 0 <= self.created_at->0.nanos < crate::time::NANOS_LIMIT
    }

    /// A made-up content under the given id.
    pub fn materialize(id: u32) -> (content: Content)
        ensures
            content.made_up(id),
    {
        let name = person_name();
        let description = sentence(3, 7);
        let count = pick_between(2, 10) - 1;
        let mut publishers: Vec<Publisher> = Vec::new();
        let mut i: u32 = 0;
        while i < count
            invariant
                i <= count,
                publishers@.len() == i,
                forall|k: int| 0 <= k < i ==> (#[trigger] publishers@[k]).made_up(),
            decreases count - i,
        {
            publishers.push(Publisher::new());
            i += 1;
        }
        let content_type = any_i32();
        let created_at = created_at();
        let views = pick_between(123_432, 10_000_000);
        let likes = pick_between(1_234, 100_000);
        let dislikes = pick_between(123, 10_000);
        Content {
            id,
            name,
            description,
            publishers,
            url: String::from_str("https://placehold.co/1600x900"),
            image: String::from_str("https://placehold.co/1600x900"),
            content_type,
            created_at,
            views,
            likes,
            dislikes,
        }
    }
}

/// The request for the content under one id.
#[derive(Clone, Copy, Debug, PartialEq, Eq, Hash, Structural)]
pub struct MaterializeRequest {
    pub id: u32,
}

/// The ids of `ids` in the order in which each first occurs.
pub open spec fn first_occurrences(ids: Seq<u32>) -> Seq<u32>
    decreases ids.len(),
{
    if ids.len() == 0 {
        Seq::empty()
    } else {
        let earlier = first_occurrences(ids.drop_last());
        if earlier.contains(ids.last()) {
            earlier
        } else {
            earlier.push(ids.last())
        }
    }
}

/// The first occurrences hold every id that was given, no other, and none
/// twice.
pub proof fn lemma_first_occurrences(ids: Seq<u32>)
    ensures
        first_occurrences(ids).no_duplicates(),
        forall|id: u32| first_occurrences(ids).contains(id) <==> ids.contains(id),
    decreases ids.len(),
{
    if ids.len() > 0 {
        let front = ids.drop_last();
        let earlier = first_occurrences(front);
        lemma_first_occurrences(front);
        assert forall|id: u32| first_occurrences(ids).contains(id) <==> ids.contains(id) by {
            if ids.contains(id) {
                let at = choose|i: int| 0 <= i < ids.len() && ids[i] == id;
                if at < front.len() {
                    assert(front[at] == id);
                    assert(front.contains(id));
                    assert(earlier.contains(id));
                }
                if !earlier.contains(ids.last()) {
                    assert(earlier.push(ids.last())[earlier.len() as int] == ids.last());
                    if earlier.contains(id) {
                        let was = choose|i: int| 0 <= i < earlier.len() && earlier[i] == id;
                        assert(earlier.push(ids.last())[was] == id);
                    }
                }
            }
            if first_occurrences(ids).contains(id) {
                let at = choose|i: int|
                    0 <= i < first_occurrences(ids).len() && first_occurrences(ids)[i] == id;
                if at < earlier.len() {
                    assert(earlier[at] == id);
                    assert(front.contains(id));
                    let was = choose|i: int| 0 <= i < front.len() && front[i] == id;
                    assert(ids[was] == id);
                } else {
                    assert(ids[ids.len() - 1] == id);
                }
            }
        }
    }
}

impl MaterializeRequest {
    /// One request for each id that occurs in `ids`, in the order in which
    /// the ids first occur.
    pub fn new_with_ids(ids: &[u32]) -> (requests: Vec<MaterializeRequest>)
        ensures
            requests@.len() == first_occurrences(ids@).len(),
            forall|i: int|
                0 <= i < requests@.len() ==> (#[trigger] requests@[i]).id == first_occurrences(
                    ids@,
                )[i],
    {
        let mut requests: Vec<MaterializeRequest> = Vec::new();
        let mut i: usize = 0;
        while i < ids.len()
            invariant
                i <= ids.len(),
                requests@.len() == first_occurrences(ids@.take(i as int)).len(),
                forall|k: int|
                    0 <= k < requests@.len() ==> (#[trigger] requests@[k]).id == first_occurrences(
                        ids@.take(i as int),
                    )[k],
            decreases ids.len() - i,
        {
            let id = ids[i];
            let ghost earlier = first_occurrences(ids@.take(i as int));
            let mut seen = false;
            let mut j: usize = 0;
            while j < requests.len()
                invariant
                    j <= requests.len(),
                    requests@.len() == earlier.len(),
                    forall|k: int| 0 <= k < requests@.len() ==> (#[trigger] requests@[k]).id == earlier[k],
                    seen <==> exists|k: int| 0 <= k < j && earlier[k] == id,
                decreases requests.len() - j,
            {
                if requests[j].id == id {
                    seen = true;
                }
                j += 1;
            }
            proof {
                let next = ids@.take(i + 1);
                assert(next.drop_last() =~= ids@.take(i as int));
                assert(next.last() == id);
                assert(seen <==> earlier.contains(id));
            }
            if !seen {
                requests.push(MaterializeRequest { id });
            }
            i += 1;
        }
        assert(ids@.take(i as int) =~= ids@);
        requests
    }
}

/// What the caller of a `Materializer` is to do next.
#[derive(Debug, PartialEq, Eq)]
pub enum Step {
    /// Read the inbound stream and report with `on_input`.
    Read,
    /// Put the content in the outbound queue, waiting while it is full,
    /// and report with `on_pushed`.
    Push(Content),
    /// End the task. Nothing more goes to the outbound queue.
    Halt,
}

/// The dispatcher of one call to the content service: each request read
/// is answered with a content under the id that it names.
pub struct Materializer {
    phase: Phase,
    read: Ghost<Seq<MaterializeRequest>>,
    pushed: Ghost<Seq<Content>>,
    taken: Ghost<nat>,
}

impl Materializer {
    /// What the dispatcher is waiting for.
    pub closed spec fn state(self) -> Phase {
        self.phase
    }

    /// The requests read so far, in order.
    pub closed spec fn read(self) -> Seq<MaterializeRequest> {
        self.read@
    }

    /// The contents handed to the outbound queue so far, in order.
    pub closed spec fn pushed(self) -> Seq<Content> {
        self.pushed@
    }

    /// How many of the contents the outbound queue has taken.
    pub closed spec fn taken(self) -> nat {
        self.taken@
    }

    /// Whether a content is with the caller that the outbound queue has
    /// not taken: the caller is waiting for room, or has found the
    /// consumer gone.
    pub open spec fn holds_back(self) -> bool {
        self.state() == Phase::Pushing || self.state() == Phase::Stopped(Stop::ConsumerGone)
    }

    /// Every request has its content, at its own position and under its
    /// own id.
    pub closed spec fn wf(self) -> bool {
        &&& self.phase != Phase::Delivering
        &&& self.pushed@.len() == self.read@.len()
        &&& forall|i: int|
            0 <= i < self.pushed@.len() ==> (#[trigger] self.pushed@[i]).made_up(self.read@[i].id)
        &&& self.pushed@.len() == self.taken@ + if self.holds_back() {
            1nat
        } else {
            0nat
        }
    }

    /// A dispatcher that has read nothing yet. The caller starts by
    /// reading the inbound stream.
    pub fn new() -> (materializer: Materializer)
        ensures
            materializer.wf(),
            materializer.state() == Phase::Reading,
            materializer.read().len() == 0,
            materializer.pushed().len() == 0,
            materializer.taken() == 0,
    {
        Materializer {
            phase: Phase::Reading,
            read: Ghost(Seq::empty()),
            pushed: Ghost(Seq::empty()),
            taken: Ghost(0),
        }
    }

    pub fn phase(&self) -> (phase: Phase)
        ensures
            phase == self.state(),
    {
        self.phase
    }

    /// Takes what reading the inbound stream gave. A request is answered
    /// with a made-up content under its id; an error of the transport and
    /// the end of the stream both end dispatch, and neither is answered.
    pub fn on_input(&mut self, input: Inbound<MaterializeRequest>) -> (step: Step)
        requires
            old(self).wf(),
            old(self).state() == Phase::Reading,
        ensures
            final(self).wf(),
            final(self).taken() == old(self).taken(),
            match input {
                Inbound::Item(request) => {
                    &&& step matches Step::Push(content)
                    &&& content.made_up(request.id)
                    &&& final(self).state() == Phase::Pushing
                    &&& final(self).read() == old(self).read().push(request)
                    &&& final(self).pushed() == old(self).pushed().push(content)
                },
                Inbound::Failed => {
                    &&& step == Step::Halt
                    &&& final(self).state() == Phase::Stopped(Stop::TransportFailed)
                    &&& final(self).read() == old(self).read()
                    &&& final(self).pushed() == old(self).pushed()
                },
                Inbound::Ended => {
                    &&& step == Step::Halt
                    &&& final(self).state() == Phase::Stopped(Stop::InputEnded)
                    &&& final(self).read() == old(self).read()
                    &&& final(self).pushed() == old(self).pushed()
                },
            },
    {
        match input {
            Inbound::Item(request) => {
                let content = Content::materialize(request.id);
                self.read = Ghost(self.read@.push(request));
                self.pushed = Ghost(self.pushed@.push(content));
                self.phase = Phase::Pushing;
                Step::Push(content)
            },
            Inbound::Failed => {
                self.phase = Phase::Stopped(Stop::TransportFailed);
                Step::Halt
            },
            Inbound::Ended => {
                self.phase = Phase::Stopped(Stop::InputEnded);
                Step::Halt
            },
        }
    }

    /// Takes the word of the outbound queue on the content handed to it.
    /// While the queue is full the caller waits and does not report, so
    /// the content stays with the caller and nothing further is read. The
    /// next request is read only once the content has been taken; where
    /// nobody takes contents any more, dispatch is over.
    pub fn on_pushed(&mut self, taken: bool) -> (step: Step)
        requires
            old(self).wf(),
            old(self).state() == Phase::Pushing,
        ensures
            final(self).wf(),
            final(self).read() == old(self).read(),
            final(self).pushed() == old(self).pushed(),
            taken ==> step == Step::Read && final(self).state() == Phase::Reading
                && final(self).taken() == old(self).taken() + 1,
            !taken ==> step == Step::Halt && final(self).state() == Phase::Stopped(
                Stop::ConsumerGone,
            ) && final(self).taken() == old(self).taken(),
    {
        if taken {
            self.taken = Ghost(self.taken@ + 1);
            self.phase = Phase::Reading;
            Step::Read
        } else {
            self.phase = Phase::Stopped(Stop::ConsumerGone);
            Step::Halt
        }
    }

    /// The dispatcher never runs ahead of the outbound queue. Of the
    /// contents handed out, all but at most one have been taken, and the
    /// one that has not is the last and still with the caller. The
    /// requests read are as many as the contents handed out, so at most
    /// one more than the contents taken.
    pub proof fn lemma_waits_for_the_queue(self)
        requires
            self.wf(),
        ensures
            self.taken() <= self.pushed().len() <= self.taken() + 1,
            self.pushed().len() == self.taken() + 1 <==> self.holds_back(),
            self.read().len() <= self.taken() + 1,
            self.state() == Phase::Reading ==> self.read().len() == self.taken(),
    {
    }

    /// There are as many contents as requests, and each content stands at
    /// the position of its request and carries the id that the request
    /// names.
    pub proof fn lemma_one_content_per_request(self)
        requires
            self.wf(),
        ensures
            self.pushed().len() == self.read().len(),
            forall|i: int|
                0 <= i < self.pushed().len() ==> (#[trigger] self.pushed()[i]).made_up(
                    self.read()[i].id,
                ),
    {
    }
}

} // verus!
