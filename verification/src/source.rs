//! The latest status record, as its producer last published it.

use vstd::prelude::*;
use crate::record::{StatusRecord, StatusRecordView};

verus! {

/// Mathematical model of a [`LiveStatusSource`].
pub struct SourceView {
    /// The record published last.
    pub current: StatusRecordView,
    /// Changes with every publication.
    pub version: nat,
}

/// The version that follows `version`. It wraps to zero after `u64::MAX`, so it
/// always differs from `version`.
pub open spec fn next_version(version: nat) -> nat {
    if version < u64::MAX {
        version + 1
    } else {
        0
    }
}

impl SourceView {
    /// The source after `record` was published.
    pub open spec fn publish(self, record: StatusRecordView) -> SourceView {
        SourceView { current: record, version: next_version(self.version) }
    }

    /// The source after each of `records` was published, first to last.
    pub open spec fn publish_all(self, records: Seq<StatusRecordView>) -> SourceView
        decreases records.len(),
    {
        if records.len() == 0 {
            self
        } else {
            self.publish_all(records.drop_last()).publish(records.last())
        }
    }
}

/// Holds exactly one current status record.
///
/// The producer replaces the record whole with [`LiveStatusSource::publish`];
/// readers copy it out with [`LiveStatusSource::latest`] and never see a mix of
/// two records.
#[derive(Debug)]
pub struct LiveStatusSource {
    current: StatusRecord,
    version: u64,
}

impl View for LiveStatusSource {
    type V = SourceView;

    closed spec fn view(&self) -> SourceView {
        SourceView { current: self.current@, version: self.version as nat }
    }
}

impl LiveStatusSource {
    /// A source whose current record is `initial`.
    pub fn new(initial: StatusRecord) -> (source: LiveStatusSource)
        ensures
            source@ == (SourceView { current: initial@, version: 0 }),
    {
        LiveStatusSource { current: initial, version: 0 }
    }

    /// Replaces the current record with `record`.
    pub fn publish(&mut self, record: StatusRecord)
        ensures
            final(self)@ == old(self)@.publish(record@),
            final(self)@.version != old(self)@.version,
    {
        self.current = record;
        self.version = if self.version < u64::MAX {
            self.version + 1
        } else {
            0
        };
    }

    /// The record published last, or the initial one if none was.
    pub fn latest(&self) -> (record: StatusRecord)
        ensures
            record@ == self@.current,
    {
        self.current
    }

    /// A number that changes with every publication.
    pub fn version(&self) -> (version: u64)
        ensures
            version == self@.version,
    {
        self.version
    }

    /// Whether a record was published since a reader saw version `seen`.
    pub fn changed_since(&self, seen: u64) -> (changed: bool)
        ensures
            changed == (self@.version != seen),
    {
        self.version != seen
    }
}

/// Once `record` is published, a read returns `record` until something is
/// published after it, and from then on whatever was published last: never a
/// record from before `record`.
pub proof fn read_follows_publication(
    source: LiveStatusSource,
    record: StatusRecord,
    later: Seq<StatusRecordView>,
)
    ensures
        later.len() == 0 ==> source@.publish(record@).publish_all(later).current == record@,
        later.len() > 0 ==> source@.publish(record@).publish_all(later).current == later.last(),
{
}

} // verus!
