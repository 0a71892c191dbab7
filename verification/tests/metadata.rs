use crm_core::dispatch::{Inbound, Phase, Stop};
use crm_core::metadata::{
    before, between, created_at, drawn_from, Content, MaterializeRequest, Materializer, Publisher,
    Step, Tpl,
};
use crm_core::sample::FAR_BACK;
use crm_core::time::to_ts;
use crm_core::send::{Msg, SendRequest};
use crm_core::time::Timestamp;

fn sample(id: u32) -> Content {
    Content {
        id,
        name: "A \"name\"".to_string(),
        description: "Two words.".to_string(),
        publishers: vec![
            Publisher { id: 10, name: "P".to_string(), avatar: "a.png".to_string() },
            Publisher { id: 11, name: "Q".to_string(), avatar: "b.png".to_string() },
        ],
        url: "u".to_string(),
        image: "i".to_string(),
        content_type: -3,
        created_at: Some(Timestamp::new(-5, 7)),
        views: 100,
        likes: 20,
        dislikes: 0,
    }
}

const SAMPLE_TEXT: &str = "Content { id: 4, name: \"A \\\"name\\\"\", description: \"Two words.\", publishers: [Publisher { id: 10, name: \"P\", avatar: \"a.png\" }, Publisher { id: 11, name: \"Q\", avatar: \"b.png\" }], url: \"u\", image: \"i\", r#type: -3, created_at: Some(Timestamp { seconds: -5, nanos: 7 }), views: 100, likes: 20, dislikes: 0 }";

#[test]
fn content_to_body_writes_every_field() {
    assert_eq!(sample(4).to_text(), SAMPLE_TEXT);
    assert_eq!(sample(4).to_body(), format!("Content: {SAMPLE_TEXT}"));
}

#[test]
fn content_without_publishers_or_date() {
    let content = Content {
        id: 0,
        name: String::new(),
        description: String::new(),
        publishers: vec![],
        url: String::new(),
        image: String::new(),
        content_type: i32::MIN,
        created_at: None,
        views: u32::MAX,
        likes: 0,
        dislikes: 0,
    };
    assert_eq!(
        content.to_body(),
        "Content: Content { id: 0, name: \"\", description: \"\", publishers: [], url: \"\", image: \"\", r#type: -2147483648, created_at: None, views: 4294967295, likes: 0, dislikes: 0 }"
    );
}

#[test]
fn extreme_seconds_are_written_in_full() {
    let mut content = sample(1);
    content.publishers.clear();
    content.created_at = Some(Timestamp::new(i64::MIN, i32::MAX));
    assert!(content
        .to_text()
        .contains("created_at: Some(Timestamp { seconds: -9223372036854775808, nanos: 2147483647 })"));
    content.created_at = Some(Timestamp::new(i64::MAX, 0));
    assert!(content.to_text().contains("seconds: 9223372036854775807, nanos: 0"));
}

#[test]
fn publisher_to_text() {
    let publisher = Publisher { id: 12345, name: "N".to_string(), avatar: "x".to_string() };
    assert_eq!(publisher.to_text(), "Publisher { id: 12345, name: \"N\", avatar: \"x\" }");
}

#[test]
fn tpl_to_body_lists_the_contents() {
    assert_eq!(Tpl(&[]).to_body(), "Tpl: []");
    let contents = vec![sample(4), sample(4)];
    assert_eq!(Tpl(&contents).to_body(), format!("Tpl: [{SAMPLE_TEXT}, {SAMPLE_TEXT}]"));
}

#[test]
fn materialize_stays_in_its_ranges() {
    for id in 0..200 {
        let content = Content::materialize(id);
        assert_eq!(content.id, id);
        assert!((1..=8).contains(&content.publishers.len()));
        for publisher in &content.publishers {
            assert!((10_000..2_000_000).contains(&publisher.id));
            assert_eq!(publisher.avatar, "https://placehold.co/400x400");
            assert!(!publisher.name.is_empty());
        }
        assert_eq!(content.url, "https://placehold.co/1600x900");
        assert_eq!(content.image, "https://placehold.co/1600x900");
        assert!((123_432..10_000_000).contains(&content.views));
        assert!((1_234..100_000).contains(&content.likes));
        assert!((123..10_000).contains(&content.dislikes));
        assert!(content.description.ends_with('.'));
        let words = content.description.split(' ').count();
        assert!((3..7).contains(&words));
        assert!(!content.name.is_empty());
        assert!(content.created_at.is_some());
    }
}

#[test]
fn publisher_new_is_made_up() {
    let publisher = Publisher::new();
    assert!((10_000..2_000_000).contains(&publisher.id));
    assert_eq!(publisher.avatar, "https://placehold.co/400x400");
}

#[test]
fn created_at_lies_in_the_last_year() {
    let start = before(365).unwrap();
    let at = created_at().unwrap();
    let end = before(0).unwrap();
    assert!(start.seconds <= at.seconds);
    assert!(at.seconds <= end.seconds);
    assert_eq!(end.seconds - before(1).unwrap().seconds, 86_400);
}

#[test]
fn between_needs_a_whole_minute() {
    let start = Timestamp::new(1_000, 500);
    assert_eq!(between(start, Timestamp::new(1_059, 999)), None);
    assert_eq!(between(start, Timestamp::new(1_060, 499)), None);
    assert_eq!(between(start, Timestamp::new(1_060, 500)), Some(start));
    assert_eq!(between(start, Timestamp::new(999, 0)), None);
    assert_eq!(between(start, start), None);
    assert!(between(Timestamp::new(i64::MIN, 0), Timestamp::new(i64::MAX, 0)).is_some());
    for _ in 0..100 {
        let at = between(start, Timestamp::new(1_000 + 600, 500)).unwrap();
        assert_eq!(at.nanos, 500);
        assert_eq!((at.seconds - 1_000) % 60, 0);
        assert!((1_000..1_600).contains(&at.seconds));
    }
}

#[test]
fn new_with_ids_names_each_id_once() {
    let requests = MaterializeRequest::new_with_ids(&[3, 1, 3, 2, 1, 3]);
    assert_eq!(
        requests,
        vec![
            MaterializeRequest { id: 3 },
            MaterializeRequest { id: 1 },
            MaterializeRequest { id: 2 }
        ]
    );
    assert!(MaterializeRequest::new_with_ids(&[]).is_empty());
}

#[test]
fn materialize_should_work() {
    let mut inputs = vec![
        Inbound::Item(MaterializeRequest { id: 1 }),
        Inbound::Item(MaterializeRequest { id: 2 }),
        Inbound::Item(MaterializeRequest { id: 3 }),
    ]
    .into_iter();
    let mut materializer = Materializer::new();
    let mut ret = Vec::new();
    let mut step = Step::Read;
    loop {
        step = match step {
            Step::Read => materializer.on_input(inputs.next().unwrap_or(Inbound::Ended)),
            Step::Push(content) => {
                ret.push(content);
                materializer.on_pushed(true)
            }
            Step::Halt => break,
        };
    }
    assert_eq!(ret.len(), 3);
    assert_eq!(ret.iter().map(|c| c.id).collect::<Vec<_>>(), vec![1, 2, 3]);
    assert_eq!(materializer.phase(), Phase::Stopped(Stop::InputEnded));
}

#[test]
fn materializer_stops_on_transport_error_and_gone_consumer() {
    let mut materializer = Materializer::new();
    assert_eq!(materializer.on_input(Inbound::Failed), Step::Halt);
    assert_eq!(materializer.phase(), Phase::Stopped(Stop::TransportFailed));
    let mut materializer = Materializer::new();
    let step = materializer.on_input(Inbound::Item(MaterializeRequest { id: 9 }));
    assert!(matches!(step, Step::Push(ref content) if content.id == 9));
    assert_eq!(materializer.phase(), Phase::Pushing);
    assert_eq!(materializer.on_pushed(false), Step::Halt);
    assert_eq!(materializer.phase(), Phase::Stopped(Stop::ConsumerGone));
}

#[test]
fn send_request_new_builds_an_email() {
    let contents = vec![sample(4)];
    let recipients = vec!["a@example.com".to_string(), "b@example.com".to_string()];
    let request =
        SendRequest::new("Subject".to_string(), "me@example.com".to_string(), &recipients, &contents);
    match request.msg {
        Some(Msg::Email(email)) => {
            assert_eq!(email.message_id.len(), 36);
            assert_eq!(email.subject, "Subject");
            assert_eq!(email.sender, "me@example.com");
            assert_eq!(email.recipients, recipients);
            assert_eq!(email.body, format!("Tpl: [{SAMPLE_TEXT}]"));
        }
        other => panic!("not an email: {other:?}"),
    }
}

#[test]
fn draws_are_not_all_the_lower_bound() {
    let contents: Vec<Content> = (0..50).map(Content::materialize).collect();
    assert!(contents.iter().any(|c| c.views != 123_432));
    assert!(contents.iter().any(|c| c.likes != 1_234));
    assert!(contents.iter().any(|c| c.dislikes != 123));
    assert!(contents.iter().any(|c| c.publishers.len() != 1));
    assert!(contents.iter().any(|c| c.publishers[0].id != 10_000));
    let start = Timestamp::new(0, 0);
    let end = Timestamp::new(60 * 1_000_000, 0);
    assert!((0..50).any(|_| between(start, end) != Some(start)));
}

#[test]
fn before_reaches_back_as_far_as_promised() {
    assert_eq!(FAR_BACK, 365_000);
    for days in [0, 1, 30, 120, 365, 36_500, FAR_BACK] {
        let at = before(days).unwrap();
        assert!(at.to_rfc3339().is_some());
        assert!((0..2_000_000_000).contains(&at.nanos));
    }
    let now = before(0).unwrap();
    let far = before(FAR_BACK).unwrap();
    assert_eq!(now.seconds / 86_400 - far.seconds.div_euclid(86_400), 365_000);
    assert_eq!(before(u64::MAX), None);
}

#[test]
fn clock_instants_can_be_written_out() {
    let now = to_ts();
    let text = now.to_rfc3339().unwrap();
    assert!(text.ends_with("+00:00"));
    assert!(text.starts_with("20"));
}

#[test]
fn created_at_is_always_there() {
    for _ in 0..100 {
        let start = before(365).unwrap();
        let at = created_at().unwrap();
        let end = before(0).unwrap();
        assert!(start.seconds <= at.seconds && at.seconds <= end.seconds);
        assert!((0..2_000_000_000).contains(&at.nanos));
    }
}

#[test]
fn drawn_from_falls_back_to_the_start() {
    let start = Timestamp::new(1_000, 500);
    assert_eq!(drawn_from(start, Timestamp::new(1_059, 999)), start);
    assert_eq!(drawn_from(start, Timestamp::new(0, 0)), start);
    assert_eq!(drawn_from(start, Timestamp::new(1_060, 500)), start);
    let end = Timestamp::new(1_000 + 60 * 1_000_000, 500);
    let draws: Vec<Timestamp> = (0..50).map(|_| drawn_from(start, end)).collect();
    for at in &draws {
        assert_eq!(at.nanos, 500);
        assert_eq!((at.seconds - 1_000) % 60, 0);
        assert!((1_000..end.seconds).contains(&at.seconds));
    }
    assert!(draws.iter().any(|at| *at != start));
}
