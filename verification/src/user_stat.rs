//! Turning a structured filter into the text of a query over `user_stats`,
//! and the answer to a query once the store has been asked.

use crate::status::{Code, Status};
use crate::text::{decimal_list, join, joined, lemma_joined_concat, push_decimal_list, views};
use crate::time::Timestamp;
use vstd::prelude::*;
use vstd::string::*;

verus! {

/// Bounds on a time column; a missing bound leaves that side open.
#[derive(Clone, Copy, Debug, PartialEq, Eq, Structural)]
pub struct TimeQuery {
    pub lower: Option<Timestamp>,
    pub upper: Option<Timestamp>,
}

/// Ids that an array column has to contain.
#[derive(Clone, Debug, PartialEq, Eq)]
pub struct IdQuery {
    pub ids: Vec<u32>,
}

/// A query as text, handed to the store as it is.
#[derive(Clone, Debug, PartialEq, Eq)]
pub struct RawQueryRequest {
    pub query: String,
}

/// One row of an answer.
#[derive(Clone, Debug, PartialEq, Eq)]
pub struct User {
    pub email: String,
    pub name: String,
}

/// What a filter holds: its time entries and its id entries, each in the
/// order in which the fields were first named.
pub struct QueryFilter {
    pub timestamps: Seq<(Seq<char>, TimeQuery)>,
    pub ids: Seq<(Seq<char>, Seq<u32>)>,
}

/// Whether both bounds of `range`, as far as they are set, can be written out.
pub open spec fn range_renders(range: TimeQuery) -> bool {
    &&& range.lower is Some ==> range.lower->0.renders()
    &&& range.upper is Some ==> range.upper->0.renders()
}

/// The condition on the column `name` that bounds with the texts `lower`
/// and `upper` make: open where both are missing, one comparison where one
/// is set, a range with the lower bound first where both are. Both bounds
/// are inclusive.
pub open spec fn time_condition_text(
    name: Seq<char>,
    lower: Option<Seq<char>>,
    upper: Option<Seq<char>>,
) -> Seq<char> {
    match (lower, upper) {
        (None, None) => "TRUE"@,
        (None, Some(upper)) => name + " <= '"@ + upper + "'"@,
        (Some(lower), None) => name + " >= '"@ + lower + "'"@,
        (Some(lower), Some(upper)) => name + " BETWEEN '"@ + lower + "' AND '"@ + upper + "'"@,
    }
}

/// The text of a bound, where the bound is set.
pub open spec fn bound_text(bound: Option<Timestamp>) -> Option<Seq<char>> {
    match bound {
        Some(at) => Some(at.text()->0),
        None => None,
    }
}

/// What a text that may be missing holds.
pub open spec fn text_of(text: Option<&str>) -> Option<Seq<char>> {
    match text {
        Some(held) => Some(held@),
        None => None,
    }
}

/// The condition that `range` puts on the column `name`.
pub open spec fn time_predicate(name: Seq<char>, range: TimeQuery) -> Seq<char> {
    time_condition_text(name, bound_text(range.lower), bound_text(range.upper))
}

/// The condition that the array column `name` contains every one of `ids`.
pub open spec fn id_predicate(name: Seq<char>, ids: Seq<u32>) -> Seq<char> {
    if ids.len() == 0 {
        "TRUE"@
    } else {
        "array["@ + decimal_list(ids) + "] <@ "@ + name
    }
}

pub open spec fn time_predicates(entries: Seq<(Seq<char>, TimeQuery)>) -> Seq<Seq<char>> {
    Seq::new(entries.len(), |i: int| time_predicate(entries[i].0, entries[i].1))
}

pub open spec fn id_predicates(entries: Seq<(Seq<char>, Seq<u32>)>) -> Seq<Seq<char>> {
    Seq::new(entries.len(), |i: int| id_predicate(entries[i].0, entries[i].1))
}

/// The part of the query before its conditions.
pub open spec fn select_clause() -> Seq<char> {
    "SELECT email, name FROM user_stats WHERE "@
}

/// The separator between two conditions.
pub open spec fn and_word() -> Seq<char> {
    " AND "@
}

impl QueryFilter {
    /// Whether every bound of every time entry can be written out.
    pub open spec fn renders(self) -> bool {
        forall|i: int| 0 <= i < self.timestamps.len() ==> range_renders(#[trigger] self.timestamps[i].1)
    }

    /// The conditions of the query in the order in which they are written:
    /// the time conditions, or the one that always holds where there is
    /// none, then the id conditions.
    pub open spec fn conditions(self) -> Seq<Seq<char>> {
        let times = if self.timestamps.len() == 0 {
            seq!["TRUE"@]
        } else {
            time_predicates(self.timestamps)
        };
        times + id_predicates(self.ids)
    }

    /// The query that selects the rows which meet every entry: the
    /// projection, then the conditions with `AND` between each two
    /// neighbours and nowhere else.
    pub open spec fn sql(self) -> Seq<char> {
        select_clause() + joined(self.conditions(), and_word())
    }

    /// A query has at least one condition; the filter without entries has
    /// the one that always holds, and nothing else.
    pub proof fn lemma_conditions_exist(self)
        ensures
            self.conditions().len() >= 1,
            self.timestamps.len() == 0 && self.ids.len() == 0 ==> self.sql() == select_clause()
                + "TRUE"@,
    {
        if self.timestamps.len() == 0 && self.ids.len() == 0 {
            assert(self.conditions() =~= seq!["TRUE"@]);
        }
    }

    /// No condition of a query is empty text.
    pub proof fn lemma_conditions_hold_text(self)
        ensures
            forall|i: int| 0 <= i < self.conditions().len() ==> (#[trigger] self.conditions()[i]).len() > 0,
    {
        reveal_strlit("TRUE");
        reveal_strlit(" <= '");
        reveal_strlit(" >= '");
        reveal_strlit(" BETWEEN '");
        reveal_strlit("array[");
        assert forall|i: int| 0 <= i < self.conditions().len() implies (
        #[trigger] self.conditions()[i]).len() > 0 by {
            let shift = if self.timestamps.len() == 0 {
                1
            } else {
                self.timestamps.len() as int
            };
            if i < shift {
                if self.timestamps.len() > 0 {
                    assert(self.conditions()[i] == time_predicate(
                        self.timestamps[i].0,
                        self.timestamps[i].1,
                    ));
                }
            } else {
                assert(self.conditions()[i] == id_predicate(
                    self.ids[i - shift].0,
                    self.ids[i - shift].1,
                ));
            }
        }
    }

    /// Filters that hold the same entries in the same order give the same
    /// text.
    pub proof fn lemma_sql_deterministic(self, other: QueryFilter)
        requires
            self.timestamps =~= other.timestamps,
            self.ids =~= other.ids,
        ensures
            self.sql() == other.sql(),
    {
    }
}

/// Writes the condition that the array column `name` contains every one of
/// `ids`; with no ids, the condition that always holds.
pub fn ids_query(name: &str, ids: &[u32]) -> (predicate: String)
    ensures
        predicate@ == id_predicate(name@, ids@),
        ids@.len() == 0 ==> predicate@ == "TRUE"@,
{
    if ids.len() == 0 {
        return String::from_str("TRUE");
    }
    let mut predicate = String::from_str("array[");
    push_decimal_list(&mut predicate, ids);
    predicate.append("] <@ ");
    predicate.append(name);
    predicate
}

/// Writes the condition on the time column `name` that bounds with the
/// texts `lower` and `upper` make. Both bounds are inclusive.
pub fn time_condition(name: &str, lower: Option<&str>, upper: Option<&str>) -> (predicate: String)
    ensures
        predicate@ == time_condition_text(name@, text_of(lower), text_of(upper)),
{
    match (lower, upper) {
        (None, None) => String::from_str("TRUE"),
        (None, Some(upper)) => {
            let mut predicate = String::from_str(name);
            predicate.append(" <= '");
            predicate.append(upper);
            predicate.append("'");
            predicate
        },
        (Some(lower), None) => {
            let mut predicate = String::from_str(name);
            predicate.append(" >= '");
            predicate.append(lower);
            predicate.append("'");
            predicate
        },
        (Some(lower), Some(upper)) => {
            let mut predicate = String::from_str(name);
            predicate.append(" BETWEEN '");
            predicate.append(lower);
            predicate.append("' AND '");
            predicate.append(upper);
            predicate.append("'");
            predicate
        },
    }
}

/// Writes the condition that the bounds put on the time column `name`,
/// each bound as RFC 3339 text.
pub fn timestamp_query(name: &str, lower: Option<&Timestamp>, upper: Option<&Timestamp>) -> (predicate: String)
    requires
        lower is Some ==> lower->0.renders(),
        upper is Some ==> upper->0.renders(),
    ensures
        predicate@ == time_predicate(
            name@,
            TimeQuery {
                lower: if lower is Some { Some(*lower->0) } else { None },
                upper: if upper is Some { Some(*upper->0) } else { None },
            },
        ),
{
    let lower_text: Option<String> = match lower {
        Some(at) => at.to_rfc3339(),
        None => None,
    };
    let upper_text: Option<String> = match upper {
        Some(at) => at.to_rfc3339(),
        None => None,
    };
    let lower_held: Option<&str> = match &lower_text {
        Some(text) => Some(text.as_str()),
        None => None,
    };
    let upper_held: Option<&str> = match &upper_text {
        Some(text) => Some(text.as_str()),
        None => None,
    };
    time_condition(name, lower_held, upper_held)
}

/// Whether no two entries name the same field.
pub open spec fn distinct_names<T>(entries: Seq<(Seq<char>, T)>) -> bool {
    forall|i: int, j: int| 0 <= i < j < entries.len() ==> entries[i].0 != entries[j].0
}

/// Whether some entry names the field `name`.
pub open spec fn names<T>(entries: Seq<(Seq<char>, T)>, name: Seq<char>) -> bool {
    exists|i: int| 0 <= i < entries.len() && entries[i].0 == name
}

/// The entries after `value` has been set for the field `name`: an entry
/// of that name keeps its place and takes the value; a new name goes last.
pub open spec fn put<T>(entries: Seq<(Seq<char>, T)>, name: Seq<char>, value: T) -> Seq<
    (Seq<char>, T),
> {
    if names(entries, name) {
        let at = choose|i: int| 0 <= i < entries.len() && entries[i].0 == name;
        entries.update(at, (name, value))
    } else {
        entries.push((name, value))
    }
}

/// Setting a field keeps every field named once.
pub proof fn lemma_put_keeps_names_distinct<T>(
    entries: Seq<(Seq<char>, T)>,
    name: Seq<char>,
    value: T,
)
    requires
        distinct_names(entries),
    ensures
        distinct_names(put(entries, name, value)),
        names(put(entries, name, value), name),
{
    let after = put(entries, name, value);
    if names(entries, name) {
        let at = choose|i: int| 0 <= i < entries.len() && entries[i].0 == name;
        assert(after[at].0 == name);
        assert forall|i: int, j: int| 0 <= i < j < after.len() implies after[i].0 != after[j].0 by {
            assert(after[i].0 == entries[i].0);
            assert(after[j].0 == entries[j].0);
        }
    } else {
        assert(after[entries.len() as int].0 == name);
        assert forall|i: int, j: int| 0 <= i < j < after.len() implies after[i].0 != after[j].0 by {
            if j < entries.len() {
                assert(after[i].0 == entries[i].0);
                assert(after[j].0 == entries[j].0);
            } else {
                assert(after[i].0 == entries[i].0);
            }
        }
    }
}

/// A filter over the rows of `user_stats`: bounds on time columns and ids
/// that array columns have to contain. Within each of the two groups a
/// field is named once, and the groups keep the order in which their
/// fields were first named.
#[derive(Debug, PartialEq, Eq)]
pub struct QueryRequest {
    timestamps: Vec<(String, TimeQuery)>,
    ids: Vec<(String, IdQuery)>,
}

spec fn time_entries(held: Seq<(String, TimeQuery)>) -> Seq<(Seq<char>, TimeQuery)> {
    Seq::new(held.len(), |i: int| (held[i].0@, held[i].1))
}

spec fn id_entries(held: Seq<(String, IdQuery)>) -> Seq<(Seq<char>, Seq<u32>)> {
    Seq::new(held.len(), |i: int| (held[i].0@, held[i].1.ids@))
}

impl View for QueryRequest {
    type V = QueryFilter;

    closed spec fn view(&self) -> QueryFilter {
        QueryFilter { timestamps: time_entries(self.timestamps@), ids: id_entries(self.ids@) }
    }
}

impl QueryRequest {
    #[verifier::type_invariant]
    spec fn names_once(&self) -> bool {
        distinct_names(self@.timestamps) && distinct_names(self@.ids)
    }

    /// The filter without entries.
    pub fn new() -> (filter: QueryRequest)
        ensures
            filter@.timestamps.len() == 0,
            filter@.ids.len() == 0,
    {
        QueryRequest { timestamps: Vec::new(), ids: Vec::new() }
    }

    /// Sets the bounds for the time column `name`.
    pub fn timestamp(self, name: String, range: TimeQuery) -> (filter: QueryRequest)
        ensures
            filter@.timestamps == put(self@.timestamps, name@, range),
            filter@.ids == self@.ids,
            distinct_names(filter@.timestamps),
            distinct_names(filter@.ids),
    {
        proof {
            use_type_invariant(&self);
            lemma_put_keeps_names_distinct(self@.timestamps, name@, range);
        }
        let ghost before = self@;
        let mut timestamps = self.timestamps;
        let ids = self.ids;
        let mut i: usize = 0;
        while i < timestamps.len()
            invariant
                i <= timestamps.len(),
                before == self@,
                before.timestamps == time_entries(timestamps@),
                before.ids == id_entries(ids@),
                distinct_names(before.timestamps),
                distinct_names(before.ids),
                distinct_names(put(before.timestamps, name@, range)),
                forall|k: int| 0 <= k < i ==> before.timestamps[k].0 != name@,
            decreases timestamps.len() - i,
        {
            if timestamps[i].0 == name {
                timestamps.set(i, (name, range));
                proof {
                    assert(before.timestamps[i as int].0 == name@);
                    let at = choose|k: int|
                        0 <= k < before.timestamps.len() && before.timestamps[k].0 == name@;
                    assert(at == i);
                    assert(time_entries(timestamps@) =~= put(before.timestamps, name@, range));
                }
                return QueryRequest { timestamps, ids };
            }
            i += 1;
        }
        timestamps.push((name, range));
        proof {
            assert(!names(before.timestamps, name@));
            assert(time_entries(timestamps@) =~= put(before.timestamps, name@, range));
        }
        QueryRequest { timestamps, ids }
    }

    /// Sets the ids that the array column `name` has to contain.
    pub fn id(self, name: String, wanted: IdQuery) -> (filter: QueryRequest)
        ensures
            filter@.ids == put(self@.ids, name@, wanted.ids@),
            filter@.timestamps == self@.timestamps,
            distinct_names(filter@.timestamps),
            distinct_names(filter@.ids),
    {
        proof {
            use_type_invariant(&self);
            lemma_put_keeps_names_distinct(self@.ids, name@, wanted.ids@);
        }
        let ghost before = self@;
        let ghost wanted_ids = wanted.ids@;
        let timestamps = self.timestamps;
        let mut ids = self.ids;
        let mut i: usize = 0;
        while i < ids.len()
            invariant
                i <= ids.len(),
                before == self@,
                before.ids == id_entries(ids@),
                before.timestamps == time_entries(timestamps@),
                distinct_names(before.timestamps),
                distinct_names(before.ids),
                distinct_names(put(before.ids, name@, wanted_ids)),
                wanted_ids == wanted.ids@,
                forall|k: int| 0 <= k < i ==> before.ids[k].0 != name@,
            decreases ids.len() - i,
        {
            if ids[i].0 == name {
                ids.set(i, (name, wanted));
                proof {
                    assert(before.ids[i as int].0 == name@);
                    let at = choose|k: int| 0 <= k < before.ids.len() && before.ids[k].0 == name@;
                    assert(at == i);
                    assert(id_entries(ids@) =~= put(before.ids, name@, wanted_ids));
                }
                return QueryRequest { timestamps, ids };
            }
            i += 1;
        }
        ids.push((name, wanted));
        proof {
            assert(!names(before.ids, name@));
            assert(id_entries(ids@) =~= put(before.ids, name@, wanted_ids));
        }
        QueryRequest { timestamps, ids }
    }

    /// The filter that bounds the time column `name` on both sides, by
    /// whole seconds since the epoch.
    pub fn new_with_dt(name: &str, lower: i64, upper: i64) -> (filter: QueryRequest)
        ensures
            filter@.timestamps == seq![
                (
                    name@,
                    TimeQuery {
                        lower: Some(Timestamp { seconds: lower, nanos: 0 }),
                        upper: Some(Timestamp { seconds: upper, nanos: 0 }),
                    },
                ),
            ],
            filter@.ids.len() == 0,
    {
        let range = TimeQuery {
            lower: Some(Timestamp::new(lower, 0)),
            upper: Some(Timestamp::new(upper, 0)),
        };
        let empty = QueryRequest::new();
        proof {
            assert(!names(empty@.timestamps, name@));
            assert(put(empty@.timestamps, name@, range) =~= seq![(name@, range)]);
        }
        empty.timestamp(String::from_str(name), range)
    }

    /// The time entries, in order.
    pub fn timestamps(&self) -> (entries: &Vec<(String, TimeQuery)>)
        ensures
            entries@.len() == self@.timestamps.len(),
            forall|i: int|
                0 <= i < entries@.len() ==> (#[trigger] entries@[i]).0@ == self@.timestamps[i].0
                    && entries@[i].1 == self@.timestamps[i].1,
    {
        &self.timestamps
    }

    /// The id entries, in order.
    pub fn ids(&self) -> (entries: &Vec<(String, IdQuery)>)
        ensures
            entries@.len() == self@.ids.len(),
            forall|i: int|
                0 <= i < entries@.len() ==> (#[trigger] entries@[i]).0@ == self@.ids[i].0
                    && entries@[i].1.ids@ == self@.ids[i].1,
    {
        &self.ids
    }

    /// Whether every bound in the filter can be written out.
    pub fn renders(&self) -> (yes: bool)
        ensures
            yes == self@.renders(),
    {
        let mut i: usize = 0;
        while i < self.timestamps.len()
            invariant
                i <= self.timestamps.len(),
                forall|k: int| 0 <= k < i ==> range_renders(#[trigger] self@.timestamps[k].1),
            decreases self.timestamps.len() - i,
        {
            let range = self.timestamps[i].1;
            let lower_ok = match range.lower {
                Some(at) => at.to_rfc3339().is_some(),
                None => true,
            };
            let upper_ok = match range.upper {
                Some(at) => at.to_rfc3339().is_some(),
                None => true,
            };
            if !lower_ok || !upper_ok {
                assert(!range_renders(self@.timestamps[i as int].1));
                return false;
            }
            i += 1;
        }
        true
    }

    /// Writes the query for this filter: the projection on `email` and
    /// `name`, then the time conditions in order, then the id conditions
    /// in order, all joined by `AND`.
    pub fn to_string(&self) -> (sql: String)
        requires
            self@.renders(),
        ensures
            sql@ == self@.sql(),
            self@.timestamps.len() == 0 && self@.ids.len() == 0 ==> sql@ == select_clause()
                + "TRUE"@,
    {
        let mut times: Vec<String> = Vec::new();
        let mut i: usize = 0;
        while i < self.timestamps.len()
            invariant
                i <= self.timestamps.len(),
                self@.renders(),
                times@.len() == i,
                forall|k: int|
                    0 <= k < i ==> (#[trigger] times@[k])@ == time_predicate(
                        self@.timestamps[k].0,
                        self@.timestamps[k].1,
                    ),
            decreases self.timestamps.len() - i,
        {
            let entry = &self.timestamps[i];
            assert(range_renders(self@.timestamps[i as int].1));
            let lower = entry.1.lower;
            let upper = entry.1.upper;
            let predicate = timestamp_query(entry.0.as_str(), lower.as_ref(), upper.as_ref());
            assert(predicate@ == time_predicate(entry.0@, entry.1));
            times.push(predicate);
            i += 1;
        }
        assert(views(times@) =~= time_predicates(self@.timestamps));
        let mut wanted: Vec<String> = Vec::new();
        let mut j: usize = 0;
        while j < self.ids.len()
            invariant
                j <= self.ids.len(),
                wanted@.len() == j,
                forall|k: int|
                    0 <= k < j ==> (#[trigger] wanted@[k])@ == id_predicate(
                        self@.ids[k].0,
                        self@.ids[k].1,
                    ),
            decreases self.ids.len() - j,
        {
            let entry = &self.ids[j];
            wanted.push(ids_query(entry.0.as_str(), entry.1.ids.as_slice()));
            j += 1;
        }
        assert(views(wanted@) =~= id_predicates(self@.ids));
        let mut sql = String::from_str("SELECT email, name FROM user_stats WHERE ");
        let ghost shown = if times.len() == 0 {
            seq!["TRUE"@]
        } else {
            views(times@)
        };
        if times.len() == 0 {
            sql.append("TRUE");
        } else {
            sql.append(join(&times, " AND ").as_str());
        }
        assert(sql@ == select_clause() + joined(shown, and_word()));
        if wanted.len() > 0 {
            sql.append(" AND ");
            sql.append(join(&wanted, " AND ").as_str());
            proof {
                lemma_joined_concat(shown, views(wanted@), and_word());
                assert(sql@ =~= select_clause() + joined(shown + views(wanted@), and_word()));
            }
        } else {
            assert(shown + views(wanted@) =~= shown);
        }
        proof {
            self@.lemma_conditions_exist();
        }
        sql
    }

    /// Writes the query for this filter where every bound in it can be
    /// written out, and nothing otherwise.
    pub fn compile(&self) -> (sql: Option<String>)
        ensures
            sql is Some <==> self@.renders(),
            sql is Some ==> sql->0@ == self@.sql(),
    {
        if self.renders() {
            Some(self.to_string())
        } else {
            None
        }
    }
}

/// The raw query that stands for `filter`, where every bound in the filter
/// can be written out.
pub fn query(filter: &QueryRequest) -> (raw: Option<RawQueryRequest>)
    ensures
        raw is Some <==> filter@.renders(),
        raw is Some ==> raw->0.query@ == filter@.sql(),
{
    match filter.compile() {
        Some(sql) => Some(RawQueryRequest { query: sql }),
        None => None,
    }
}

/// The message of the failure that answers a query which the store
/// did not run.
pub open spec fn fetch_failure(query: Seq<char>) -> Seq<char> {
    "Failed to fetch data with query: "@ + query
}

/// The answer to a raw query once the store has been asked. `fetched`
/// holds every matching row, or nothing where the store failed. The
/// answer is then all of the rows in the order given, or a single failure:
/// never some rows and a failure.
pub fn raw_query(req: &RawQueryRequest, fetched: Option<Vec<User>>) -> (answer: Result<
    Vec<User>,
    Status,
>)
    ensures
        fetched is Some ==> answer is Ok && answer->Ok_0 == fetched->0,
        fetched is None ==> answer is Err && answer->Err_0.has(
            Code::Internal,
            fetch_failure(req.query@),
        ),
{
    match fetched {
        Some(rows) => Ok(rows),
        None => {
            let mut message = String::from_str("Failed to fetch data with query: ");
            message.append(req.query.as_str());
            Err(Status::internal(message.as_str()))
        },
    }
}

} // verus!
