//! The buffer of timing samples and their grouping by key.

use vstd::prelude::*;
use vstd::string::*;

verus! {

/// One recorded event: a duration under a key.
#[derive(Clone, Debug, PartialEq, Eq)]
pub struct Sample {
    pub key: String,
    pub value: u64,
}

impl View for Sample {
    type V = (Seq<char>, u64);

    open spec fn view(&self) -> (Seq<char>, u64) {
        (self.key@, self.value)
    }
}

/// The events that a list of samples stands for.
pub open spec fn events_of(samples: Seq<Sample>) -> Seq<(Seq<char>, u64)> {
    samples.map_values(|s: Sample| s@)
}

/// Events recorded since the last drain, in the order of their arrival.
#[derive(Debug)]
pub struct EventBuffer {
    entries: Vec<Sample>,
}

impl View for EventBuffer {
    type V = Seq<(Seq<char>, u64)>;

    closed spec fn view(&self) -> Seq<(Seq<char>, u64)> {
        events_of(self.entries@)
    }
}

/// What is done to a buffer: a producer records an event, or the sampler
/// drains it.
pub enum Operation {
    Record(Seq<char>, u64),
    Drain,
}

/// What a buffer holds after an operation: one event more after a record,
/// nothing after a drain.
pub open spec fn held_after(held: Seq<(Seq<char>, u64)>, operation: Operation) -> Seq<
    (Seq<char>, u64),
> {
    match operation {
        Operation::Record(key, value) => held.push((key, value)),
        Operation::Drain => Seq::empty(),
    }
}

/// What an operation hands out of a buffer: all that it holds at a drain,
/// nothing at a record.
pub open spec fn handed_out(held: Seq<(Seq<char>, u64)>, operation: Operation) -> Seq<
    (Seq<char>, u64),
> {
    match operation {
        Operation::Record(_, _) => Seq::empty(),
        Operation::Drain => held,
    }
}

/// What a buffer that was empty holds after a run of operations.
pub open spec fn pending(run: Seq<Operation>) -> Seq<(Seq<char>, u64)>
    decreases run.len(),
{
    if run.len() == 0 {
        Seq::empty()
    } else {
        held_after(pending(run.drop_last()), run.last())
    }
}

/// What the drains of a run have handed out, one drain after the other.
pub open spec fn drained(run: Seq<Operation>) -> Seq<(Seq<char>, u64)>
    decreases run.len(),
{
    if run.len() == 0 {
        Seq::empty()
    } else {
        drained(run.drop_last()) + handed_out(pending(run.drop_last()), run.last())
    }
}

/// The events that were recorded in a run, in the order of arrival.
pub open spec fn recorded(run: Seq<Operation>) -> Seq<(Seq<char>, u64)>
    decreases run.len(),
{
    if run.len() == 0 {
        Seq::empty()
    } else {
        match run.last() {
            Operation::Record(key, value) => recorded(run.drop_last()).push((key, value)),
            Operation::Drain => recorded(run.drop_last()),
        }
    }
}

/// Every event is handed out by exactly one drain, the first one after its
/// arrival: at any time, what the drains have handed out so far, followed by
/// what the buffer still holds, is what was recorded, in the order of
/// arrival.
pub proof fn lemma_drained_once(run: Seq<Operation>)
    ensures
        drained(run) + pending(run) == recorded(run),
    decreases run.len(),
{
    if run.len() == 0 {
        assert(drained(run) + pending(run) =~= recorded(run));
    } else {
        let before = run.drop_last();
        lemma_drained_once(before);
        match run.last() {
            Operation::Record(key, value) => {
                assert(drained(before) + Seq::empty() =~= drained(before));
                assert(drained(before) + pending(before).push((key, value)) =~= (drained(before)
                    + pending(before)).push((key, value)));
            },
            Operation::Drain => {
                assert(drained(before) + pending(before) + Seq::empty() =~= drained(before)
                    + pending(before));
            },
        }
    }
}

/// After a drain the buffer holds nothing, whatever the run before it.
pub proof fn lemma_empty_after_drain(run: Seq<Operation>)
    ensures
        pending(run.push(Operation::Drain)).len() == 0,
{
    assert(run.push(Operation::Drain).last() == Operation::Drain);
}

impl EventBuffer {
    /// A buffer that holds nothing.
    pub fn new() -> (buffer: EventBuffer)
        ensures
            buffer@ == Seq::<(Seq<char>, u64)>::empty(),
    {
        let buffer = EventBuffer { entries: Vec::new() };
        assert(buffer@ =~= Seq::empty());
        buffer
    }

    /// Number of events waiting to be drained.
    pub fn len(&self) -> (n: usize)
        ensures
            n == self@.len(),
    {
        self.entries.len()
    }

    /// Appends one event.
    pub fn record(&mut self, key: &str, value: u64)
        ensures
            final(self)@ == held_after(old(self)@, Operation::Record(key@, value)),
    {
        let sample = Sample { key: String::from_str(key), value };
        self.entries.push(sample);
        assert(self@ =~= old(self)@.push((key@, value)));
    }

    /// Drains the buffer: hands out every event recorded since the last
    /// drain, in the order of arrival, and leaves the buffer empty.
    pub fn flush_series(&mut self) -> (drained: Vec<Sample>)
        ensures
            events_of(drained@) == handed_out(old(self)@, Operation::Drain),
            final(self)@ == held_after(old(self)@, Operation::Drain),
            final(self)@.len() == 0,
    {
        let mut drained: Vec<Sample> = Vec::new();
        core::mem::swap(&mut self.entries, &mut drained);
        assert(self@ =~= Seq::empty());
        drained
    }
}

/// The durations recorded under one key.
#[derive(Clone, Debug, PartialEq, Eq)]
pub struct Series {
    pub key: String,
    pub values: Vec<u64>,
}

impl View for Series {
    type V = (Seq<char>, Seq<u64>);

    open spec fn view(&self) -> (Seq<char>, Seq<u64>) {
        (self.key@, self.values@)
    }
}

/// The keyed series that a list of series stands for.
pub open spec fn series_of(groups: Seq<Series>) -> Seq<(Seq<char>, Seq<u64>)> {
    groups.map_values(|g: Series| g@)
}

/// The keys of the events, each once, in the order of first arrival.
pub open spec fn keys_of(events: Seq<(Seq<char>, u64)>) -> Seq<Seq<char>>
    decreases events.len(),
{
    if events.len() == 0 {
        Seq::empty()
    } else {
        let before = keys_of(events.drop_last());
        if before.contains(events.last().0) {
            before
        } else {
            before.push(events.last().0)
        }
    }
}

/// The durations recorded under `key`, in the order of arrival.
pub open spec fn values_for(events: Seq<(Seq<char>, u64)>, key: Seq<char>) -> Seq<u64>
    decreases events.len(),
{
    if events.len() == 0 {
        Seq::empty()
    } else {
        let before = values_for(events.drop_last(), key);
        if events.last().0 == key {
            before.push(events.last().1)
        } else {
            before
        }
    }
}

/// The events grouped by key: one series for each key, in the order in which
/// the keys first arrived, holding that key's durations in the order of
/// arrival.
pub open spec fn grouped(events: Seq<(Seq<char>, u64)>) -> Seq<(Seq<char>, Seq<u64>)> {
    keys_of(events).map_values(|key: Seq<char>| (key, values_for(events, key)))
}

/// A key is listed exactly if an event carries it.
pub proof fn lemma_keys_cover(events: Seq<(Seq<char>, u64)>, key: Seq<char>)
    ensures
        keys_of(events).contains(key) <==> exists|i: int|
            0 <= i < events.len() && (#[trigger] events[i]).0 == key,
    decreases events.len(),
{
    if events.len() > 0 {
        let before = events.drop_last();
        lemma_keys_cover(before, key);
        if keys_of(events).contains(key) {
            if keys_of(before).contains(key) {
                let i = choose|i: int| 0 <= i < before.len() && (#[trigger] before[i]).0 == key;
                assert(events[i].0 == key);
            } else {
                let j = choose|j: int| 0 <= j < keys_of(events).len() && keys_of(events)[j] == key;
                assert(j == keys_of(before).len());
                assert(events[events.len() - 1].0 == key);
            }
        }
        if exists|i: int| 0 <= i < events.len() && (#[trigger] events[i]).0 == key {
            let i = choose|i: int| 0 <= i < events.len() && (#[trigger] events[i]).0 == key;
            if i < before.len() {
                assert(before[i].0 == key);
                assert(keys_of(before).contains(key));
                if !keys_of(before).contains(events.last().0) {
                    let j = choose|j: int|
                        0 <= j < keys_of(before).len() && keys_of(before)[j] == key;
                    assert(keys_of(events)[j] == key);
                }
            } else {
                if !keys_of(before).contains(key) {
                    assert(keys_of(events)[keys_of(before).len() as int] == key);
                }
            }
        }
    }
}

/// No key is listed twice.
pub proof fn lemma_keys_distinct(events: Seq<(Seq<char>, u64)>)
    ensures
        keys_of(events).no_duplicates(),
    decreases events.len(),
{
    if events.len() > 0 {
        lemma_keys_distinct(events.drop_last());
    }
}

/// Under a key that no event carries nothing was recorded, and under every
/// other key something was.
pub proof fn lemma_values_present(events: Seq<(Seq<char>, u64)>, key: Seq<char>)
    ensures
        keys_of(events).contains(key) <==> values_for(events, key).len() > 0,
    decreases events.len(),
{
    if events.len() > 0 {
        let before = events.drop_last();
        lemma_values_present(before, key);
        if keys_of(before).contains(key) && !keys_of(before).contains(events.last().0) {
            let j = choose|j: int| 0 <= j < keys_of(before).len() && keys_of(before)[j] == key;
            assert(keys_of(events)[j] == key);
        }
        if events.last().0 == key && !keys_of(before).contains(key) {
            assert(keys_of(events)[keys_of(before).len() as int] == key);
        }
        if keys_of(events).contains(key) && !keys_of(before).contains(key) {
            let j = choose|j: int| 0 <= j < keys_of(events).len() && keys_of(events)[j] == key;
            assert(j == keys_of(before).len());
        }
    }
}

/// Number of durations that a list of series holds.
pub open spec fn grouped_len(groups: Seq<(Seq<char>, Seq<u64>)>) -> nat
    decreases groups.len(),
{
    if groups.len() == 0 {
        0
    } else {
        grouped_len(groups.drop_last()) + groups.last().1.len()
    }
}

/// Replacing one series changes the number of durations by the difference
/// of the lengths.
proof fn lemma_grouped_len_update(
    groups: Seq<(Seq<char>, Seq<u64>)>,
    i: int,
    series: (Seq<char>, Seq<u64>),
)
    requires
        0 <= i < groups.len(),
    ensures
        grouped_len(groups.update(i, series)) + groups[i].1.len() == grouped_len(groups)
            + series.1.len(),
    decreases groups.len(),
{
    if i == groups.len() - 1 {
        assert(groups.update(i, series).drop_last() =~= groups.drop_last());
    } else {
        lemma_grouped_len_update(groups.drop_last(), i, series);
        assert(groups.update(i, series).drop_last() =~= groups.drop_last().update(i, series));
    }
}

/// Grouping after one more event: the event's duration joins the series of
/// its key, which is new at the end where the key is new.
proof fn lemma_grouped_push(events: Seq<(Seq<char>, u64)>, key: Seq<char>, value: u64)
    ensures
        keys_of(events).contains(key) ==> grouped(events.push((key, value))) == grouped(
            events,
        ).update(
            keys_of(events).index_of(key),
            (key, grouped(events)[keys_of(events).index_of(key)].1.push(value)),
        ),
        !keys_of(events).contains(key) ==> grouped(events.push((key, value))) == grouped(
            events,
        ).push((key, seq![value])),
{
    let more = events.push((key, value));
    assert(more.drop_last() =~= events);
    assert(more.last() == (key, value));
    lemma_keys_distinct(events);
    assert forall|k: Seq<char>| k != key implies values_for(more, k) == values_for(events, k) by {}
    assert(values_for(more, key) == values_for(events, key).push(value));
    if keys_of(events).contains(key) {
        let i = keys_of(events).index_of(key);
        assert(keys_of(more) == keys_of(events));
        assert(grouped(more) =~= grouped(events).update(
            i,
            (key, grouped(events)[i].1.push(value)),
        ));
    } else {
        lemma_values_present(events, key);
        assert(values_for(events, key) =~= Seq::empty());
        assert(values_for(more, key) =~= seq![value]);
        assert(grouped(more) =~= grouped(events).push((key, seq![value])));
    }
}

/// Grouping neither loses an event nor counts one twice: the series hold as
/// many durations as there are events.
pub proof fn lemma_grouped_complete(events: Seq<(Seq<char>, u64)>)
    ensures
        grouped_len(grouped(events)) == events.len(),
    decreases events.len(),
{
    if events.len() == 0 {
        assert(grouped(events) =~= Seq::empty());
    } else {
        let before = events.drop_last();
        let (key, value) = events.last();
        assert(before.push((key, value)) =~= events);
        lemma_grouped_complete(before);
        lemma_grouped_push(before, key, value);
        if keys_of(before).contains(key) {
            let i = keys_of(before).index_of(key);
            lemma_grouped_len_update(grouped(before), i, (key, grouped(before)[i].1.push(value)));
        } else {
            assert(grouped(events).drop_last() =~= grouped(before));
        }
    }
}

/// Each series of the grouping holds the durations of its key, and only
/// keys that occur have a series.
pub proof fn lemma_grouped_series(events: Seq<(Seq<char>, u64)>, i: int)
    requires
        0 <= i < grouped(events).len(),
    ensures
        grouped(events)[i].1 == values_for(events, grouped(events)[i].0),
        grouped(events)[i].1.len() > 0,
        keys_of(events).contains(grouped(events)[i].0),
{
    let key = keys_of(events)[i];
    assert(keys_of(events).contains(key));
    lemma_values_present(events, key);
}

/// An event that is the only one recorded between two drains is, at the
/// second drain, a series of its own that holds nothing else, whatever was
/// recorded before the first: no event of an earlier interval is carried
/// over, and the event is not lost.
pub proof fn lemma_interval_series(before: Seq<Operation>, key: Seq<char>, value: u64)
    ensures
        pending(before.push(Operation::Drain).push(Operation::Record(key, value))) == seq![
            (key, value),
        ],
        grouped(pending(before.push(Operation::Drain).push(Operation::Record(key, value))))
            == seq![(key, seq![value])],
{
    let first = before.push(Operation::Drain);
    let second = first.push(Operation::Record(key, value));
    assert(first.last() == Operation::Drain);
    assert(second.drop_last() =~= first);
    assert(second.last() == Operation::Record(key, value));
    let none = Seq::<(Seq<char>, u64)>::empty();
    assert(pending(first) == none);
    assert(pending(second) == none.push((key, value)));
    assert(pending(second) =~= seq![(key, value)]);
    assert(none.push((key, value)) =~= seq![(key, value)]);
    lemma_grouped_push(none, key, value);
    assert(grouped(none) =~= Seq::empty());
    assert(grouped(none).push((key, seq![value])) =~= seq![(key, seq![value])]);
}

/// Where the series of `key` stands among `groups`, if it has one.
fn find_series(groups: &Vec<Series>, key: &String) -> (at: Option<usize>)
    ensures
        at matches Some(i) ==> i < groups@.len() && groups@[i as int].key@ == key@,
        at is None ==> forall|j: int| 0 <= j < groups@.len() ==> groups@[j].key@ != key@,
{
    let mut i: usize = 0;
    while i < groups.len()
        invariant
            i <= groups.len(),
            forall|j: int| 0 <= j < i ==> groups@[j].key@ != key@,
        decreases groups.len() - i,
    {
        if groups[i].key == *key {
            return Some(i);
        }
        i = i + 1;
    }
    None
}

/// Groups drained events by key: one series for each key that occurs, in the
/// order in which the keys first arrived, each with the durations of its
/// key in the order of arrival. No key has two series.
pub fn group_series(drained: &Vec<Sample>) -> (groups: Vec<Series>)
    ensures
        series_of(groups@) == grouped(events_of(drained@)),
        forall|i: int, j: int|
            0 <= i < j < groups@.len() ==> groups@[i].key@ != groups@[j].key@,
{
    let mut groups: Vec<Series> = Vec::new();
    let mut i: usize = 0;
    assert(series_of(groups@) =~= grouped(events_of(drained@).take(0)));
    while i < drained.len()
        invariant
            i <= drained.len(),
            series_of(groups@) == grouped(events_of(drained@).take(i as int)),
        decreases drained.len() - i,
    {
        let ghost events = events_of(drained@);
        let ghost seen = events.take(i as int);
        let ghost key = drained@[i as int].key@;
        let value: u64 = drained[i].value;
        proof {
            assert(events.take(i + 1) =~= seen.push((key, value)));
            lemma_grouped_push(seen, key, value);
            lemma_keys_distinct(seen);
        }
        let ghost before = groups@;
        assert(series_of(before).len() == before.len());
        assert(grouped(seen).len() == keys_of(seen).len());
        match find_series(&groups, &drained[i].key) {
            Some(at) => {
                proof {
                    assert(series_of(before)[at as int] == before[at as int]@);
                    assert(grouped(seen)[at as int].0 == keys_of(seen)[at as int]);
                    assert(keys_of(seen)[at as int] == key);
                    assert(keys_of(seen).contains(key));
                    keys_of(seen).index_of_first_ensures(key);
                    assert(keys_of(seen).index_of(key) == at);
                }
                groups[at].values.push(value);
                assert(series_of(groups@) =~= series_of(before).update(
                    at as int,
                    (key, series_of(before)[at as int].1.push(value)),
                ));
            },
            None => {
                proof {
                    if keys_of(seen).contains(key) {
                        let j = keys_of(seen).index_of(key);
                        assert(grouped(seen)[j].0 == keys_of(seen)[j]);
                        assert(series_of(before)[j] == before[j]@);
                        assert(before[j].key@ == key);
                    }
                }
                let mut values: Vec<u64> = Vec::new();
                values.push(value);
                groups.push(Series { key: drained[i].key.clone(), values });
                assert(series_of(groups@) =~= series_of(before).push((key, seq![value])));
            },
        }
        i = i + 1;
    }
    proof {
        let events = events_of(drained@);
        assert(events.take(i as int) =~= events);
        lemma_keys_distinct(events);
        assert forall|i: int, j: int| 0 <= i < j < groups@.len() implies groups@[i].key@
            != groups@[j].key@ by {
            assert(series_of(groups@)[i] == groups@[i]@);
            assert(series_of(groups@)[j] == groups@[j]@);
            assert(grouped(events)[i].0 == keys_of(events)[i]);
            assert(grouped(events)[j].0 == keys_of(events)[j]);
        }
    }
    groups
}

} // verus!
