//! The topic registry: which topics the status page reports on, and how.

use vstd::prelude::*;
use vstd::string::*;
use crate::status::StatusType;
use crate::text::text_eq;

verus! {

/// The mode that a configuration text names: `basic` and `boolean` name
/// their modes, anything else leaves the topic unreported.
pub open spec fn status_type_for(text: Seq<char>) -> StatusType {
    if text == "basic"@ {
        StatusType::Basic
    } else if text == "boolean"@ {
        StatusType::Boolean
    } else {
        StatusType::Unreported
    }
}

/// Reads a mode from its configuration text. A text that names no mode is
/// no error: the topic is then not reported on.
pub fn parse_status_type(text: &str) -> (r: StatusType)
    ensures
        r == status_type_for(text@),
{
    if text_eq(text, "basic") {
        StatusType::Basic
    } else if text_eq(text, "boolean") {
        StatusType::Boolean
    } else {
        StatusType::Unreported
    }
}

/// One row of the topic configuration as the store returns it.
#[derive(Debug, PartialEq, Eq)]
pub struct TopicRow {
    pub topic_name: String,
    pub status_type: String,
}

/// A topic and the mode in which it is reported.
#[derive(Debug, PartialEq, Eq)]
pub struct TopicConfig {
    pub topic_name: String,
    pub status_type: StatusType,
}

/// What a `TopicConfig` says.
pub struct TopicConfigView {
    pub topic_name: Seq<char>,
    pub status_type: StatusType,
}

impl View for TopicConfig {
    type V = TopicConfigView;

    open spec fn view(&self) -> TopicConfigView {
        TopicConfigView { topic_name: self.topic_name@, status_type: self.status_type }
    }
}

/// The position of the entry for `name`, or `-1` where there is none.
pub open spec fn position_of(entries: Seq<TopicConfigView>, name: Seq<char>) -> int
    decreases entries.len(),
{
    if entries.len() == 0 {
        -1
    } else if position_of(entries.drop_last(), name) >= 0 {
        position_of(entries.drop_last(), name)
    } else if entries.last().topic_name == name {
        entries.len() - 1
    } else {
        -1
    }
}

/// The entries after `name` was configured with `status_type`: a topic that
/// is already there keeps its place and takes the new mode, a new topic
/// goes to the end.
pub open spec fn configured(
    entries: Seq<TopicConfigView>,
    name: Seq<char>,
    status_type: StatusType,
) -> Seq<TopicConfigView> {
    let entry = TopicConfigView { topic_name: name, status_type };
    if position_of(entries, name) >= 0 {
        entries.update(position_of(entries, name), entry)
    } else {
        entries.push(entry)
    }
}

/// The entries that a list of configuration rows gives, read in order.
pub open spec fn registered(rows: Seq<TopicRow>) -> Seq<TopicConfigView>
    decreases rows.len(),
{
    if rows.len() == 0 {
        Seq::empty()
    } else {
        configured(
            registered(rows.drop_last()),
            rows.last().topic_name@,
            status_type_for(rows.last().status_type@),
        )
    }
}

/// No topic has two entries.
pub open spec fn distinct_topics(entries: Seq<TopicConfigView>) -> bool {
    forall|i: int, j: int|
        0 <= i < j < entries.len() ==> (#[trigger] entries[i]).topic_name != (
        #[trigger] entries[j]).topic_name
}

/// `position_of` finds the first entry for the name, and `-1` only where no
/// entry has it.
pub proof fn lemma_position_of(entries: Seq<TopicConfigView>, name: Seq<char>)
    ensures
        -1 <= position_of(entries, name) < entries.len(),
        position_of(entries, name) >= 0 ==> entries[position_of(entries, name)].topic_name == name,
        forall|k: int|
            0 <= k < entries.len() && (#[trigger] entries[k]).topic_name == name ==> 0
                <= position_of(entries, name) <= k,
    decreases entries.len(),
{
    if entries.len() > 0 {
        let head = entries.drop_last();
        lemma_position_of(head, name);
        assert forall|k: int|
            0 <= k < entries.len() && (#[trigger] entries[k]).topic_name == name implies 0
            <= position_of(entries, name) <= k by {
            if k < head.len() {
                assert(head[k] == entries[k]);
            }
        }
    }
}

/// Configuring a topic keeps the topics distinct.
pub proof fn lemma_configured_distinct(
    entries: Seq<TopicConfigView>,
    name: Seq<char>,
    status_type: StatusType,
)
    requires
        distinct_topics(entries),
    ensures
        distinct_topics(configured(entries, name, status_type)),
{
    lemma_position_of(entries, name);
    let after = configured(entries, name, status_type);
    assert forall|i: int, j: int| 0 <= i < j < after.len() implies (#[trigger] after[i]).topic_name
        != (#[trigger] after[j]).topic_name by {
        if position_of(entries, name) >= 0 {
            assert(after[i].topic_name == entries[i].topic_name);
            assert(after[j].topic_name == entries[j].topic_name);
        } else if j == entries.len() {
            assert(after[i] == entries[i]);
        } else {
            assert(after[i] == entries[i]);
            assert(after[j] == entries[j]);
        }
    }
}

/// The registry never holds a topic twice.
pub proof fn lemma_registered_distinct(rows: Seq<TopicRow>)
    ensures
        distinct_topics(registered(rows)),
    decreases rows.len(),
{
    if rows.len() > 0 {
        lemma_registered_distinct(rows.drop_last());
        lemma_configured_distinct(
            registered(rows.drop_last()),
            rows.last().topic_name@,
            status_type_for(rows.last().status_type@),
        );
    }
}

/// The topics that the status page reports on, each once, in the order in
/// which the configuration first names them.
#[derive(Debug, PartialEq, Eq)]
pub struct TopicRegistry {
    pub entries: Vec<TopicConfig>,
}

impl View for TopicRegistry {
    type V = Seq<TopicConfigView>;

    open spec fn view(&self) -> Seq<TopicConfigView> {
        self.entries@.map_values(|entry: TopicConfig| entry@)
    }
}

impl TopicRegistry {
    /// Whether the registry is well formed: no topic has two entries.
    pub open spec fn wf(&self) -> bool {
        distinct_topics(self@)
    }

    /// The mode of `topic`: that of its entry, and unreported where it has
    /// none.
    pub open spec fn mode_of(&self, topic: Seq<char>) -> StatusType {
        if position_of(self@, topic) >= 0 {
            self@[position_of(self@, topic)].status_type
        } else {
            StatusType::Unreported
        }
    }

    /// A registry without topics.
    pub fn new() -> (r: Self)
        ensures
            r@ == Seq::<TopicConfigView>::empty(),
            r.wf(),
    {
        let r = TopicRegistry { entries: Vec::new() };
        assert(r@ =~= Seq::<TopicConfigView>::empty());
        r
    }

    /// Where the entry of `topic` stands, if it has one.
    pub fn find(&self, topic: &str) -> (r: Option<usize>)
        ensures
            match r {
                Some(i) => i < self.entries.len() && i == position_of(self@, topic@),
                None => position_of(self@, topic@) == -1,
            },
    {
        proof {
            lemma_position_of(self@, topic@);
        }
        let mut i: usize = 0;
        while i < self.entries.len()
            invariant
                i <= self.entries.len(),
                self@.len() == self.entries.len(),
                forall|k: int| 0 <= k < i ==> (#[trigger] self@[k]).topic_name != topic@,
                -1 <= position_of(self@, topic@) < self@.len(),
                position_of(self@, topic@) >= 0 ==> self@[position_of(self@, topic@)].topic_name
                    == topic@,
                forall|k: int|
                    0 <= k < self@.len() && (#[trigger] self@[k]).topic_name == topic@ ==> 0
                        <= position_of(self@, topic@) <= k,
            decreases self.entries.len() - i,
        {
            assert(self@[i as int] == self.entries[i as int]@);
            if text_eq(self.entries[i].topic_name.as_str(), topic) {
                return Some(i);
            }
            i = i + 1;
        }
        None
    }

    /// Configures `topic_name` with `status_type`. A well-formed registry
    /// stays well formed.
    pub fn configure(&mut self, topic_name: String, status_type: StatusType)
        ensures
            final(self)@ == configured(old(self)@, topic_name@, status_type),
            old(self).wf() ==> final(self).wf(),
    {
        proof {
            if self.wf() {
                lemma_configured_distinct(self@, topic_name@, status_type);
            }
        }
        let entry = TopicConfig { topic_name, status_type };
        let ghost added = entry@;
        match self.find(entry.topic_name.as_str()) {
            Some(i) => {
                self.entries.set(i, entry);
                assert(self@ =~= old(self)@.update(i as int, added));
            },
            None => {
                self.entries.push(entry);
                assert(self@ =~= old(self)@.push(added));
            },
        }
    }

    /// Reads the registry from the rows of the topic configuration. A topic
    /// that several rows name is reported once, in the mode of the last of
    /// them.
    pub fn load(rows: &Vec<TopicRow>) -> (r: Self)
        ensures
            r@ == registered(rows@),
            r.wf(),
    {
        let mut registry = TopicRegistry::new();
        let mut i: usize = 0;
        assert(rows@.subrange(0, 0) =~= Seq::<TopicRow>::empty());
        while i < rows.len()
            invariant
                i <= rows.len(),
                registry@ == registered(rows@.subrange(0, i as int)),
                registry.wf(),
            decreases rows.len() - i,
        {
            let row = &rows[i];
            proof {
                let next = rows@.subrange(0, i + 1);
                assert(next.drop_last() =~= rows@.subrange(0, i as int));
                assert(next.last() == rows@[i as int]);
            }
            registry.configure(row.topic_name.clone(), parse_status_type(row.status_type.as_str()));
            i = i + 1;
        }
        assert(rows@.subrange(0, i as int) =~= rows@);
        registry
    }

    /// The mode in which `topic` is reported; a topic without an entry is
    /// not reported on.
    pub fn status_of(&self, topic: &str) -> (r: StatusType)
        ensures
            r == self.mode_of(topic@),
    {
        match self.find(topic) {
            Some(i) => {
                assert(self@[i as int] == self.entries[i as int]@);
                self.entries[i].status_type
            },
            None => StatusType::Unreported,
        }
    }
}

} // verus!
