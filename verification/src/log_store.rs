//! The bounded, ordered, classified log of a session.

use vstd::prelude::*;
use crate::messages::LogType;
use crate::text::{chars_of, contains_text, find_in, occurs_at};

verus! {

/// The largest number of entries that a store retains.
pub const CAPACITY: usize = 1000;

/// Marker of a line that came from the serial source.
pub const SERIAL_MARKER: &'static str = "[Serial]";

/// Marker of a line that came from the network source.
pub const SERVER_MARKER: &'static str = "[Server]";

/// The classification of a line: the serial marker wins over the server
/// marker, and a line with neither is normal.
pub open spec fn classify_spec(text: Seq<char>) -> LogType {
    if contains_text(text, SERIAL_MARKER@) {
        LogType::SerialSource
    } else if contains_text(text, SERVER_MARKER@) {
        LogType::NetworkSource
    } else {
        LogType::Normal
    }
}

/// Classifies a line by the origin marker it carries.
pub fn parse_log_type(message: &str) -> (kind: LogType)
    ensures
        kind == classify_spec(message@),
{
    let text = chars_of(message);
    if find_in(&text, &chars_of(SERIAL_MARKER)) {
        LogType::SerialSource
    } else if find_in(&text, &chars_of(SERVER_MARKER)) {
        LogType::NetworkSource
    } else {
        LogType::Normal
    }
}

/// One line of the log with its origin tag.
#[derive(Debug, Clone)]
pub struct LogEntry {
    pub content: String,
    pub classification: LogType,
}

/// What a log entry says: its characters and its origin tag.
pub struct LogEntryView {
    pub content: Seq<char>,
    pub classification: LogType,
}

impl View for LogEntry {
    type V = LogEntryView;

    open spec fn view(&self) -> LogEntryView {
        LogEntryView { content: self.content@, classification: self.classification }
    }
}

/// The entry that an ingested line becomes.
pub open spec fn classified(text: Seq<char>) -> LogEntryView {
    LogEntryView { content: text, classification: classify_spec(text) }
}

/// The entry that a line written by the controller becomes.
pub open spec fn plain(text: Seq<char>) -> LogEntryView {
    LogEntryView { content: text, classification: LogType::Normal }
}

/// The last `cap` items of `items`, or all of them where there are fewer.
pub open spec fn retain_recent<T>(items: Seq<T>, cap: nat) -> Seq<T> {
    if items.len() > cap {
        items.subrange(items.len() - cap, items.len() as int)
    } else {
        items
    }
}

/// The log that `log` becomes when one entry is appended to it.
pub open spec fn append_spec(log: Seq<LogEntryView>, entry: LogEntryView) -> Seq<LogEntryView> {
    retain_recent(log.push(entry), CAPACITY as nat)
}

/// The entries that a run of ingested lines becomes.
pub open spec fn classified_all(texts: Seq<Seq<char>>) -> Seq<LogEntryView> {
    texts.map_values(|text: Seq<char>| classified(text))
}

/// The log that `log` becomes when the lines of `texts` are appended to it
/// one after the other.
pub open spec fn append_all_spec(log: Seq<LogEntryView>, texts: Seq<Seq<char>>) -> Seq<
    LogEntryView,
>
    decreases texts.len(),
{
    if texts.len() == 0 {
        log
    } else {
        append_spec(append_all_spec(log, texts.drop_last()), classified(texts.last()))
    }
}

/// However many lines are appended, one call after the other, the log holds
/// the most recent `CAPACITY` of all its entries, in the order in which they
/// came, or all of them where there are fewer; and it is within its capacity
/// after every single call.
pub proof fn lemma_appends_keep_most_recent(log: Seq<LogEntryView>, texts: Seq<Seq<char>>)
    requires
        log.len() <= CAPACITY,
    ensures
        append_all_spec(log, texts) == retain_recent(log + classified_all(texts), CAPACITY as nat),
        forall|k: int|
            0 <= k <= texts.len() ==> (#[trigger] append_all_spec(log, texts.take(k))).len()
                <= CAPACITY,
    decreases texts.len(),
{
    if texts.len() == 0 {
        assert(log + classified_all(texts) =~= log);
        assert forall|k: int| 0 <= k <= texts.len() implies (#[trigger] append_all_spec(
            log,
            texts.take(k),
        )).len() <= CAPACITY by {
            assert(texts.take(k) =~= texts);
        }
    } else {
        let front = texts.drop_last();
        lemma_appends_keep_most_recent(log, front);
        let before = log + classified_all(front);
        let all = log + classified_all(texts);
        assert(all =~= before.push(classified(texts.last())));
        assert(append_all_spec(log, texts) =~= retain_recent(all, CAPACITY as nat));
        assert forall|k: int| 0 <= k <= texts.len() implies (#[trigger] append_all_spec(
            log,
            texts.take(k),
        )).len() <= CAPACITY by {
            if k == texts.len() {
                assert(texts.take(k) =~= texts);
            } else {
                assert(texts.take(k) =~= front.take(k));
            }
        }
    }
}

/// Keeping the most recent items of a run, then adding `more` and keeping
/// the most recent again, leaves what keeping the most recent of the whole
/// leaves.
pub proof fn lemma_retain_recent_twice<T>(items: Seq<T>, more: Seq<T>, cap: nat)
    ensures
        retain_recent(retain_recent(items, cap) + more, cap) == retain_recent(items + more, cap),
{
    assert(retain_recent(retain_recent(items, cap) + more, cap) =~= retain_recent(
        items + more,
        cap,
    ));
}

/// Lines that come in two batches, one poll after the other, leave the log
/// that the same lines leave when they come in one batch.
pub proof fn lemma_batches_compose(
    log: Seq<LogEntryView>,
    first: Seq<Seq<char>>,
    second: Seq<Seq<char>>,
)
    ensures
        retain_recent(
            retain_recent(log + classified_all(first), CAPACITY as nat) + classified_all(second),
            CAPACITY as nat,
        ) == retain_recent(log + classified_all(first + second), CAPACITY as nat),
{
    lemma_retain_recent_twice(log + classified_all(first), classified_all(second), CAPACITY as nat);
    assert(classified_all(first + second) =~= classified_all(first) + classified_all(second));
    assert(log + classified_all(first + second) =~= log + classified_all(first) + classified_all(
        second,
    ));
}

/// A line that carries the serial marker anywhere is tagged as coming from
/// the serial source, whatever else it carries.
pub proof fn lemma_serial_marker_classifies(before: Seq<char>, after: Seq<char>)
    ensures
        classify_spec(before + SERIAL_MARKER@ + after) == LogType::SerialSource,
{
    let text = before + SERIAL_MARKER@ + after;
    assert(text.subrange(before.len() as int, (before.len() + SERIAL_MARKER@.len()) as int)
        =~= SERIAL_MARKER@);
    assert(occurs_at(text, SERIAL_MARKER@, before.len() as int));
}

/// A line that carries the server marker and not the serial marker is
/// tagged as coming from the network source.
pub proof fn lemma_server_marker_classifies(before: Seq<char>, after: Seq<char>)
    requires
        !contains_text(before + SERVER_MARKER@ + after, SERIAL_MARKER@),
    ensures
        classify_spec(before + SERVER_MARKER@ + after) == LogType::NetworkSource,
{
    let text = before + SERVER_MARKER@ + after;
    assert(text.subrange(before.len() as int, (before.len() + SERVER_MARKER@.len()) as int)
        =~= SERVER_MARKER@);
    assert(occurs_at(text, SERVER_MARKER@, before.len() as int));
}

/// The characters of each of a run of lines.
pub open spec fn texts_of(lines: Seq<String>) -> Seq<Seq<char>> {
    lines.map_values(|line: String| line@)
}

/// The views of a run of entries.
pub open spec fn views_of(entries: Seq<LogEntry>) -> Seq<LogEntryView> {
    entries.map_values(|e: LogEntry| e@)
}

impl LogEntry {
    /// An entry with the classification that its markers give it.
    pub fn from_text(content: String) -> (entry: LogEntry)
        ensures
            entry@ == classified(content@),
    {
        let classification = parse_log_type(content.as_str());
        LogEntry { content, classification }
    }

    /// An entry written by the controller itself.
    pub fn normal(content: String) -> (entry: LogEntry)
        ensures
            entry@ == plain(content@),
    {
        LogEntry { content, classification: LogType::Normal }
    }
}

/// Ordered log entries, oldest first, never more than `CAPACITY` of them.
pub struct LogStore {
    entries: Vec<LogEntry>,
}

impl View for LogStore {
    type V = Seq<LogEntryView>;

    closed spec fn view(&self) -> Seq<LogEntryView> {
        views_of(self.entries@)
    }
}

impl LogStore {
    /// The store keeps within its capacity. Every store that this module
    /// hands out does, and every operation keeps it so.
    pub open spec fn wf(&self) -> bool {
        self@.len() <= CAPACITY
    }

    /// A store without entries.
    pub fn new() -> (store: LogStore)
        ensures
            store@ == Seq::<LogEntryView>::empty(),
            store.wf(),
    {
        LogStore { entries: Vec::new() }
    }

    /// The number of retained entries.
    pub fn len(&self) -> (n: usize)
        ensures
            n == self@.len(),
    {
        self.entries.len()
    }

    /// Whether the store retains no entry.
    pub fn is_empty(&self) -> (empty: bool)
        ensures
            empty == (self@.len() == 0),
    {
        self.entries.len() == 0
    }

    /// The retained entries, oldest first.
    pub fn entries(&self) -> (all: &Vec<LogEntry>)
        ensures
            views_of(all@) == self@,
    {
        &self.entries
    }

    /// The entry at position `index`, counted from the oldest.
    pub fn get(&self, index: usize) -> (entry: Option<&LogEntry>)
        ensures
            index < self@.len() ==> entry is Some && entry->0@ == self@[index as int],
            index >= self@.len() ==> entry is None,
    {
        if index < self.entries.len() {
            Some(&self.entries[index])
        } else {
            None
        }
    }

    /// Appends an entry at the tail, then drops entries from the head until
    /// no more than `CAPACITY` are left.
    pub fn append_entry(&mut self, entry: LogEntry)
        ensures
            final(self)@ == append_spec(old(self)@, entry@),
            final(self).wf(),
    {
        let ghost full = old(self)@.push(entry@);
        self.entries.push(entry);
        assert(views_of(self.entries@) =~= full);
        while self.entries.len() > CAPACITY
            invariant
                self.entries@.len() <= full.len(),
                full.len() <= CAPACITY ==> self.entries@.len() == full.len(),
                full.len() > CAPACITY ==> self.entries@.len() >= CAPACITY,
                views_of(self.entries@) == full.subrange(
                    full.len() - self.entries@.len(),
                    full.len() as int,
                ),
            decreases self.entries@.len(),
        {
            let ghost before = self.entries@;
            self.entries.remove(0);
            assert(views_of(self.entries@) =~= views_of(before).subrange(
                1,
                before.len() as int,
            ));
            assert(views_of(self.entries@) =~= full.subrange(
                full.len() - self.entries@.len(),
                full.len() as int,
            ));
        }
        assert(views_of(self.entries@) =~= retain_recent(full, CAPACITY as nat));
    }

    /// Classifies `text` by its markers and appends it.
    pub fn append(&mut self, text: String)
        ensures
            final(self)@ == append_spec(old(self)@, classified(text@)),
            final(self).wf(),
    {
        self.append_entry(LogEntry::from_text(text));
    }

    /// Appends the lines of `batch` in their order, each with the
    /// classification that its markers give it.
    pub fn append_batch(&mut self, batch: Vec<String>)
        requires
            old(self).wf(),
        ensures
            final(self)@ == retain_recent(
                old(self)@ + classified_all(texts_of(batch@)),
                CAPACITY as nat,
            ),
            final(self).wf(),
    {
        let ghost texts = texts_of(batch@);
        let ghost total = batch@.len();
        for text in it: batch
            invariant
                texts_of(it.seq()) == texts,
                self@ == append_all_spec(old(self)@, texts.take(it.index())),
                self.wf(),
        {
            proof {
                assert(texts.take(it.index() + 1).drop_last() =~= texts.take(it.index()));
            }
            self.append(text);
        }
        proof {
            assert(texts.take(total as int) =~= texts);
            lemma_appends_keep_most_recent(old(self)@, texts);
        }
    }
}

} // verus!
