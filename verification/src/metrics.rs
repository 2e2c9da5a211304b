//! Request accounting: one counter per endpoint and response status, fed by
//! the metrics middleware and written out in the Prometheus text format.

use crate::routing::{counted, is_counted, route_method, route_path, Method, Route, RouterConfig};
use vstd::prelude::*;

verus! {

/// Name of the request counter in the exposition.
pub const REQUESTS_TOTAL: &'static str = "http_requests_total";

/// What a request is counted under: the endpoint that answered it and the
/// status of the response.
#[derive(Clone, Copy, Debug, PartialEq, Eq, Structural)]
pub struct RequestLabels {
    pub route: Route,
    pub status: u16,
}

/// One counter: its labels and how many requests were counted under them.
#[derive(Clone, Copy, Debug, PartialEq, Eq, Structural)]
pub struct CounterEntry {
    pub labels: RequestLabels,
    pub count: u64,
}

/// The request counters of a process, in the order in which their labels were
/// first seen.
pub struct RequestCounters {
    entries: Vec<CounterEntry>,
}

/// Whether some counter has these labels.
pub open spec fn has_labels(entries: Seq<CounterEntry>, labels: RequestLabels) -> bool {
    exists|i: int| 0 <= i < entries.len() && entries[i].labels == labels
}

/// The place of the counter that has these labels.
pub open spec fn index_of(entries: Seq<CounterEntry>, labels: RequestLabels) -> int {
    choose|i: int| 0 <= i < entries.len() && entries[i].labels == labels
}

/// How many requests were counted under these labels: nought where no counter
/// has them.
pub open spec fn count_in(entries: Seq<CounterEntry>, labels: RequestLabels) -> nat {
    if has_labels(entries, labels) {
        entries[index_of(entries, labels)].count as nat
    } else {
        0
    }
}

/// No two counters have the same labels, and every counter has counted at
/// least one request.
pub open spec fn well_formed(entries: Seq<CounterEntry>) -> bool {
    &&& forall|i: int, j: int|
        0 <= i < j < entries.len() ==> entries[i].labels != entries[j].labels
    &&& forall|i: int| 0 <= i < entries.len() ==> (#[trigger] entries[i]).count >= 1
}

/// The counters after one more request under these labels: the counter that
/// has them is raised by one where it stands, or a new counter at one is put
/// behind the others.
pub open spec fn recorded(entries: Seq<CounterEntry>, labels: RequestLabels) -> Seq<CounterEntry> {
    if has_labels(entries, labels) {
        let i = index_of(entries, labels);
        entries.update(i, CounterEntry { labels, count: (entries[i].count + 1) as u64 })
    } else {
        entries.push(CounterEntry { labels, count: 1 })
    }
}

/// The counters after a run of requests, first request first.
pub open spec fn recorded_all(entries: Seq<CounterEntry>, requests: Seq<RequestLabels>) -> Seq<
    CounterEntry,
>
    decreases requests.len(),
{
    if requests.len() == 0 {
        entries
    } else {
        recorded(recorded_all(entries, requests.drop_last()), requests.last())
    }
}

/// How many requests of a run came under these labels.
pub open spec fn occurrences(requests: Seq<RequestLabels>, labels: RequestLabels) -> nat
    decreases requests.len(),
{
    if requests.len() == 0 {
        0
    } else {
        occurrences(requests.drop_last(), labels) + if requests.last() == labels {
            1nat
        } else {
            0nat
        }
    }
}

/// One more request raises the counter of its labels by one and leaves every
/// other counter as it was.
pub proof fn lemma_recorded_counts(
    entries: Seq<CounterEntry>,
    labels: RequestLabels,
    other: RequestLabels,
)
    requires
        well_formed(entries),
        count_in(entries, labels) < u64::MAX,
    ensures
        well_formed(recorded(entries, labels)),
        count_in(recorded(entries, labels), labels) == count_in(entries, labels) + 1,
        other != labels ==> count_in(recorded(entries, labels), other) == count_in(entries, other),
        count_in(recorded(entries, labels), other) >= count_in(entries, other),
{
    let after = recorded(entries, labels);
    if has_labels(entries, labels) {
        let i = index_of(entries, labels);
        assert(after[i].labels == labels);
        assert(has_labels(after, labels));
        assert forall|k: int| 0 <= k < after.len() implies after[k].labels == entries[k].labels by {}
        if has_labels(entries, other) {
            let k = index_of(entries, other);
            assert(after[k].labels == other);
        }
        if has_labels(after, other) {
            let k = index_of(after, other);
            assert(entries[k].labels == other);
        }
    } else {
        let n = entries.len() as int;
        assert(after[n].labels == labels);
        assert(has_labels(after, labels));
        if has_labels(entries, other) {
            let k = index_of(entries, other);
            assert(after[k].labels == other);
        }
        if has_labels(after, other) && other != labels {
            let k = index_of(after, other);
            assert(k < n);
            assert(entries[k].labels == other);
        }
    }
}

/// A prefix of a run holds no more requests under any labels than the run.
pub proof fn lemma_occurrences_grow(requests: Seq<RequestLabels>, labels: RequestLabels)
    requires
        requests.len() > 0,
    ensures
        occurrences(requests.drop_last(), labels) <= occurrences(requests, labels),
        requests.last() == labels ==> occurrences(requests.drop_last(), labels) + 1
            == occurrences(requests, labels),
{
}

/// After a run of requests every counter stands at what it stood at before
/// plus the number of requests of the run that came under its labels. So no
/// counter ever goes down, and one that saw `n` requests has gone up by `n`.
/// A counter cannot pass the largest value a `u64` holds, so runs that would
/// take one beyond it are left out.
pub proof fn lemma_counts_after_run(
    entries: Seq<CounterEntry>,
    requests: Seq<RequestLabels>,
    labels: RequestLabels,
)
    requires
        well_formed(entries),
        forall|l: RequestLabels| count_in(entries, l) + occurrences(requests, l) <= u64::MAX,
    ensures
        well_formed(recorded_all(entries, requests)),
        count_in(recorded_all(entries, requests), labels) == count_in(entries, labels)
            + occurrences(requests, labels),
        count_in(recorded_all(entries, requests), labels) >= count_in(entries, labels),
    decreases requests.len(),
{
    if requests.len() > 0 {
        let earlier = requests.drop_last();
        let last = requests.last();
        assert forall|l: RequestLabels| count_in(entries, l) + occurrences(earlier, l)
            <= u64::MAX by {
            lemma_occurrences_grow(requests, l);
        }
        lemma_counts_after_run(entries, earlier, labels);
        lemma_counts_after_run(entries, earlier, last);
        lemma_occurrences_grow(requests, last);
        lemma_occurrences_grow(requests, labels);
        lemma_recorded_counts(recorded_all(entries, earlier), last, labels);
    }
}

impl RequestCounters {
    /// The counters in the order in which their labels were first seen.
    pub closed spec fn view(&self) -> Seq<CounterEntry> {
        self.entries@
    }

    /// The invariant of the counters.
    pub open spec fn wf(&self) -> bool {
        well_formed(self@)
    }

    /// How many requests were counted under these labels.
    pub open spec fn counted(&self, labels: RequestLabels) -> nat {
        count_in(self@, labels)
    }

    /// Counters that have counted nothing yet.
    pub fn new() -> (counters: RequestCounters)
        ensures
            counters.wf(),
            counters@ == Seq::<CounterEntry>::empty(),
            forall|labels: RequestLabels| counters.counted(labels) == 0,
    {
        RequestCounters { entries: Vec::new() }
    }

    fn find(&self, labels: RequestLabels) -> (place: Option<usize>)
        requires
            self.wf(),
        ensures
            match place {
                Some(i) => has_labels(self@, labels) && i == index_of(self@, labels),
                None => !has_labels(self@, labels),
            },
    {
        let mut i: usize = 0;
        while i < self.entries.len()
            invariant
                i <= self.entries.len(),
                self.wf(),
                forall|k: int| 0 <= k < i ==> self.entries@[k].labels != labels,
            decreases self.entries.len() - i,
        {
            let entry = self.entries[i];
            if entry.labels.route == labels.route && entry.labels.status == labels.status {
                assert(self@[i as int].labels == labels);
                return Some(i);
            }
            i += 1;
        }
        None
    }

    /// How many requests were counted under these labels.
    pub fn count(&self, labels: RequestLabels) -> (count: u64)
        requires
            self.wf(),
        ensures
            count == self.counted(labels),
    {
        match self.find(labels) {
            Some(i) => self.entries[i].count,
            None => 0,
        }
    }

    /// How many counters there are.
    pub fn len(&self) -> (len: usize)
        ensures
            len == self@.len(),
    {
        self.entries.len()
    }

    /// The counter at a place, in the order of first appearance.
    pub fn entry(&self, index: usize) -> (entry: Option<CounterEntry>)
        ensures
            entry == if index < self@.len() {
                Some(self@[index as int])
            } else {
                None
            },
    {
        if index < self.entries.len() {
            Some(self.entries[index])
        } else {
            None
        }
    }

    /// Counts one more request under these labels. A counter that has reached
    /// the largest value a `u64` holds cannot count further.
    pub fn record(&mut self, labels: RequestLabels)
        requires
            old(self).wf(),
            old(self).counted(labels) < u64::MAX,
        ensures
            final(self).wf(),
            final(self)@ == recorded(old(self)@, labels),
            final(self).counted(labels) == old(self).counted(labels) + 1,
            forall|other: RequestLabels|
                other != labels ==> final(self).counted(other) == old(self).counted(other),
    {
        proof {
            assert forall|other: RequestLabels|
                other != labels implies count_in(recorded(self@, labels), other) == count_in(
                self@,
                other,
            ) by {
                lemma_recorded_counts(self@, labels, other);
            }
            lemma_recorded_counts(self@, labels, labels);
        }
        match self.find(labels) {
            Some(i) => {
                let entry = self.entries[i];
                self.entries.set(i, CounterEntry { labels, count: entry.count + 1 });
            },
            None => {
                self.entries.push(CounterEntry { labels, count: 1 });
            },
        }
    }
}

/// The decimal digit of a value below ten.
pub open spec fn digit_char(digit: int) -> char
    recommends
        0 <= digit < 10,
{
    seq!['0', '1', '2', '3', '4', '5', '6', '7', '8', '9'][digit]
}

/// A number in decimal, without sign or leading zeros.
pub open spec fn decimal(value: nat) -> Seq<char>
    decreases value,
{
    if value < 10 {
        seq![digit_char(value as int)]
    } else {
        decimal(value / 10).push(digit_char((value % 10) as int))
    }
}

/// One label as the exposition writes it: the key, an equals sign, and the
/// value in double quotes.
pub open spec fn label_text(key: Seq<char>, value: Seq<char>) -> Seq<char> {
    key + "=\""@ + value + "\""@
}

/// The name of the method that an endpoint answers.
pub open spec fn method_name(route: Route) -> Seq<char> {
    if route_method(route) == Method::Post {
        "POST"@
    } else {
        "GET"@
    }
}

/// The labels of a counter as the exposition writes them: method, path and
/// status, in this order.
pub open spec fn label_texts(labels: RequestLabels) -> Seq<Seq<char>> {
    seq![
        label_text("method"@, method_name(labels.route)),
        label_text("path"@, route_path(labels.route)),
        label_text("status"@, decimal(labels.status as nat)),
    ]
}

/// Texts with a comma between each two.
pub open spec fn comma_joined(texts: Seq<Seq<char>>) -> Seq<char>
    decreases texts.len(),
{
    if texts.len() == 0 {
        Seq::empty()
    } else if texts.len() == 1 {
        texts[0]
    } else {
        comma_joined(texts.drop_last()) + ","@ + texts.last()
    }
}

/// The line that declares the type of a metric.
pub open spec fn type_line(name: Seq<char>, kind: Seq<char>) -> Seq<char> {
    "# TYPE "@ + name + " "@ + kind + "\n"@
}

/// The line of one sample: the metric's name, its labels in braces where it
/// has any, a space and the value.
pub open spec fn metric_line(name: Seq<char>, labels: Seq<Seq<char>>, value: nat) -> Seq<char> {
    let braced = if labels.len() > 0 {
        "{"@ + comma_joined(labels) + "}"@
    } else {
        Seq::empty()
    };
    name + braced + " "@ + decimal(value) + "\n"@
}

/// The sample lines of the counters, one after the other.
pub open spec fn counter_lines(entries: Seq<CounterEntry>) -> Seq<char>
    decreases entries.len(),
{
    if entries.len() == 0 {
        Seq::empty()
    } else {
        counter_lines(entries.drop_last()) + metric_line(
            REQUESTS_TOTAL@,
            label_texts(entries.last().labels),
            entries.last().count as nat,
        )
    }
}

/// The counters in the Prometheus text format: nothing where there is no
/// counter; else the type line, one sample line per counter and an empty
/// line.
pub open spec fn exposition(entries: Seq<CounterEntry>) -> Seq<char> {
    if entries.len() == 0 {
        Seq::empty()
    } else {
        type_line(REQUESTS_TOTAL@, "counter"@) + counter_lines(entries) + "\n"@
    }
}

/// The views of a list of strings.
pub open spec fn texts_of(strings: Seq<String>) -> Seq<Seq<char>> {
    strings.map_values(|s: String| s@)
}

/// Calls `metrics_exporter_prometheus::formatting::write_type_line`. Trusted:
/// it appends `# TYPE`, the name and the type, separated by single spaces and
/// ended by a line feed.
#[verifier::external_body]
fn push_type_line(buffer: &mut String, name: &str, kind: &str)
    ensures
        final(buffer)@ == old(buffer)@ + type_line(name@, kind@),
{
    metrics_exporter_prometheus::formatting::write_type_line(buffer, name, kind)
}

/// Calls `metrics_exporter_prometheus::formatting::write_metric_line` for a
/// counter: without suffix and without additional label. Trusted: it appends
/// the name, the labels as given, separated by commas and set in braces where
/// there are any, a space, the value in decimal and a line feed.
#[verifier::external_body]
fn push_counter_line(buffer: &mut String, name: &str, labels: &Vec<String>, value: u64)
    ensures
        final(buffer)@ == old(buffer)@ + metric_line(name@, texts_of(labels@), value as nat),
{
    metrics_exporter_prometheus::formatting::write_metric_line::<&str, u64>(
        buffer,
        name,
        None,
        labels,
        None,
        value,
    )
}

fn digit_text(digit: u64) -> (text: &'static str)
    requires
        digit < 10,
    ensures
        text@ == seq![digit_char(digit as int)],
{
    proof {
        reveal_strlit("0");
        reveal_strlit("1");
        reveal_strlit("2");
        reveal_strlit("3");
        reveal_strlit("4");
        reveal_strlit("5");
        reveal_strlit("6");
        reveal_strlit("7");
        reveal_strlit("8");
        reveal_strlit("9");
    }
    let text = match digit {
        0 => "0",
        1 => "1",
        2 => "2",
        3 => "3",
        4 => "4",
        5 => "5",
        6 => "6",
        7 => "7",
        8 => "8",
        _ => "9",
    };
    assert(text@ =~= seq![digit_char(digit as int)]);
    text
}

/// Writes a number in decimal.
pub fn decimal_text(value: u64) -> (text: String)
    ensures
        text@ == decimal(value as nat),
    decreases value,
{
    if value < 10 {
        String::from_str(digit_text(value))
    } else {
        let mut text = decimal_text(value / 10);
        text.append(digit_text(value % 10));
        assert(text@ =~= decimal(value as nat));
        text
    }
}

fn label(key: &str, value: &str) -> (text: String)
    ensures
        text@ == label_text(key@, value@),
{
    let mut text = String::from_str(key);
    text.append("=\"");
    text.append(value);
    text.append("\"");
    text
}

impl RequestLabels {
    /// The labels as the exposition writes them: method, path and status.
    pub fn texts(&self) -> (texts: Vec<String>)
        ensures
            texts_of(texts@) == label_texts(*self),
    {
        let method = match self.route.method() {
            Method::Post => "POST",
            _ => "GET",
        };
        let status = decimal_text(self.status as u64);
        let mut texts: Vec<String> = Vec::new();
        texts.push(label("method", method));
        texts.push(label("path", self.route.path()));
        texts.push(label("status", status.as_str()));
        assert(texts_of(texts@) =~= label_texts(*self));
        texts
    }
}

impl RequestCounters {
    /// Writes the counters out in the Prometheus text format, in the order in
    /// which their labels were first seen.
    pub fn render(&self) -> (text: String)
        ensures
            text@ == exposition(self@),
    {
        let mut text = String::new();
        if self.entries.len() == 0 {
            return text;
        }
        push_type_line(&mut text, REQUESTS_TOTAL, "counter");
        let mut i: usize = 0;
        while i < self.entries.len()
            invariant
                i <= self.entries.len(),
                text@ == type_line(REQUESTS_TOTAL@, "counter"@) + counter_lines(
                    self.entries@.take(i as int),
                ),
            decreases self.entries.len() - i,
        {
            let entry = self.entries[i];
            let labels = entry.labels.texts();
            push_counter_line(&mut text, REQUESTS_TOTAL, &labels, entry.count);
            proof {
                let before = self.entries@.take(i as int);
                let after = self.entries@.take(i + 1);
                assert(after.drop_last() =~= before);
                assert(after.last() == entry);
            }
            i += 1;
        }
        assert(self.entries@.take(i as int) =~= self.entries@);
        text.append("\n");
        text
    }
}

/// The metrics middleware's part after a request was answered: the request is
/// counted under its endpoint and status where the middleware wraps that
/// endpoint, and not at all where it does not. A counter that has reached the
/// largest value a `u64` holds stays there. The result says whether the
/// request was counted.
pub fn observe(
    counters: &mut RequestCounters,
    route: Route,
    status: u16,
    config: RouterConfig,
) -> (taken: bool)
    requires
        old(counters).wf(),
    ensures
        final(counters).wf(),
        taken == (is_counted(route, config) && old(counters).counted(
            RequestLabels { route, status },
        ) < u64::MAX),
        final(counters)@ == if taken {
            recorded(old(counters)@, RequestLabels { route, status })
        } else {
            old(counters)@
        },
{
    let labels = RequestLabels { route, status };
    if counted(route, config) && counters.count(labels) < u64::MAX {
        counters.record(labels);
        true
    } else {
        false
    }
}

} // verus!
