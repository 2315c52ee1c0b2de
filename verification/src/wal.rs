//! The write-ahead audit log the store records every mutating call into.
//!
//! The store invokes `record` inside the same critical section as the
//! mutation it documents and commits the mutation only if logging succeeds:
//! no accepted mutation without a log entry, and no entry for a rejected one.
use vstd::prelude::*;
use crate::common::UserId;
use crate::defs::{
    ArtistId, ArtistMetaData, ArtistMetaDataView, Event, EventView, Release, ReleaseId,
    ReleaseView,
};
use crate::diffs::{ArtistMetaDataDiff, ArtistMetaDataDiffView, ReleaseDiff, ReleaseDiffView};

verus! {

broadcast use vstd::string::group_string_axioms;

/// What one mutating call logs: the seed record of an Add, or the diff of an
/// accepted update together with its target.
#[derive(Debug, PartialEq, Eq)]
pub enum LogPayload {
    ArtistSeed(ArtistMetaData),
    ReleaseSeed(Release),
    EventSeed(Event),
    ArtistUpdate { id: ArtistId, diff: ArtistMetaDataDiff },
    ReleaseUpdate { id: ReleaseId, diff: ReleaseDiff },
}

#[verifier::ext_equal]
pub enum LogPayloadView {
    ArtistSeed(ArtistMetaDataView),
    ReleaseSeed(ReleaseView),
    EventSeed(EventView),
    ArtistUpdate { id: ArtistId, diff: ArtistMetaDataDiffView },
    ReleaseUpdate { id: ReleaseId, diff: ReleaseDiffView },
}

impl View for LogPayload {
    type V = LogPayloadView;

    open spec fn view(&self) -> LogPayloadView {
        match self {
            LogPayload::ArtistSeed(a) => LogPayloadView::ArtistSeed(a@),
            LogPayload::ReleaseSeed(r) => LogPayloadView::ReleaseSeed(r@),
            LogPayload::EventSeed(e) => LogPayloadView::EventSeed(e@),
            LogPayload::ArtistUpdate { id, diff } => LogPayloadView::ArtistUpdate {
                id: *id,
                diff: diff@,
            },
            LogPayload::ReleaseUpdate { id, diff } => LogPayloadView::ReleaseUpdate {
                id: *id,
                diff: diff@,
            },
        }
    }
}

/// One audit log entry: who called, which operation, and what it carried.
#[derive(Debug, PartialEq, Eq)]
pub struct LogEntry {
    pub user: UserId,
    pub api_name: String,
    pub payload: LogPayload,
}

#[verifier::ext_equal]
pub struct LogEntryView {
    pub user: UserId,
    pub api_name: Seq<char>,
    pub payload: LogPayloadView,
}

impl View for LogEntry {
    type V = LogEntryView;

    open spec fn view(&self) -> LogEntryView {
        LogEntryView { user: self.user, api_name: self.api_name@, payload: self.payload@ }
    }
}

/// An append-only, order-preserving record of mutating calls.
///
/// `entries` is the log's content in completion order; `can_record` says
/// whether the next append will be accepted. An append either succeeds and
/// extends the log by exactly the given entry, or fails and leaves the log
/// unchanged.
pub trait LogStore: Sized {
    spec fn entries(&self) -> Seq<LogEntryView>;

    spec fn can_record(&self) -> bool;

    fn record(&mut self, user: UserId, api_name: &str, payload: LogPayload) -> (r: Result<
        (),
        String,
    >)
        ensures
            r is Ok <==> old(self).can_record(),
            r is Ok ==> final(self).entries() == old(self).entries().push(
                LogEntryView { user, api_name: api_name@, payload: payload@ },
            ),
            r is Err ==> final(self).entries() == old(self).entries(),
    ;
}

/// An in-memory log that keeps every entry and never rejects one.
#[derive(Debug)]
pub struct NaiveLogStore(Vec<LogEntry>);

impl NaiveLogStore {
    /// An empty log.
    pub fn new() -> (r: NaiveLogStore)
        ensures
            r.entries() == Seq::<LogEntryView>::empty(),
    {
        let r = NaiveLogStore(Vec::new());
        proof {
            assert(r.entries() =~= Seq::<LogEntryView>::empty());
        }
        r
    }

    /// How many entries the log holds.
    pub fn len(&self) -> (n: usize)
        ensures
            n == self.entries().len(),
    {
        self.0.len()
    }

    /// The stored entries, oldest first.
    pub fn entries_vec(&self) -> (r: &Vec<LogEntry>)
        ensures
            r@.map_values(|e: LogEntry| e@) == self.entries(),
    {
        &self.0
    }
}

impl LogStore for NaiveLogStore {
    closed spec fn entries(&self) -> Seq<LogEntryView> {
        self.0@.map_values(|e: LogEntry| e@)
    }

    open spec fn can_record(&self) -> bool {
        true
    }

    fn record(&mut self, user: UserId, api_name: &str, payload: LogPayload) -> (r: Result<
        (),
        String,
    >) {
        let ghost pre = self.entries();
        self.0.push(LogEntry { user, api_name: api_name.to_string(), payload });
        proof {
            assert(self.entries() =~= pre.push(
                LogEntryView { user, api_name: api_name@, payload: payload@ },
            ));
        }
        Ok(())
    }
}

/// A log with a fixed capacity: appends beyond it are rejected. Lets callers
/// exercise the store's behaviour when its logging collaborator fails.
#[derive(Debug)]
pub struct BoundedLogStore {
    entries: Vec<LogEntry>,
    limit: usize,
}

impl BoundedLogStore {
    /// How many entries the log accepts in total.
    pub closed spec fn capacity(&self) -> nat {
        self.limit as nat
    }

    /// An empty log that will accept `limit` entries.
    pub fn with_capacity(limit: usize) -> (r: BoundedLogStore)
        ensures
            r.entries() == Seq::<LogEntryView>::empty(),
            r.capacity() == limit,
    {
        let r = BoundedLogStore { entries: Vec::new(), limit };
        proof {
            assert(r.entries() =~= Seq::<LogEntryView>::empty());
        }
        r
    }
}

impl LogStore for BoundedLogStore {
    closed spec fn entries(&self) -> Seq<LogEntryView> {
        self.entries@.map_values(|e: LogEntry| e@)
    }

    open spec fn can_record(&self) -> bool {
        self.entries().len() < self.capacity()
    }

    fn record(&mut self, user: UserId, api_name: &str, payload: LogPayload) -> (r: Result<
        (),
        String,
    >) {
        if self.entries.len() < self.limit {
            let ghost pre = self.entries();
            self.entries.push(LogEntry { user, api_name: api_name.to_string(), payload });
            proof {
                assert(self.entries() =~= pre.push(
                    LogEntryView { user, api_name: api_name@, payload: payload@ },
                ));
            }
            Ok(())
        } else {
            Err("audit log at capacity".to_string())
        }
    }
}

} // verus!
