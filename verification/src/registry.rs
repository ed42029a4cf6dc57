//! Safe enumeration of the engine's live connections.
//!
//! The engine keeps its connections in an internal linked structure that it
//! may reorder while the caller is working (for example, promoting an active
//! connection to the head), so a live traversal could revisit entries
//! indefinitely. The protocol here eliminates that hazard: one exhaustive
//! linear walk — first, then repeated next, until the null terminator — is
//! materialized up front into an immutable ordered snapshot, and only the
//! snapshot is iterated. The snapshot yields every captured connection
//! exactly once, in the order the walk encountered it, and terminates
//! whatever the engine does to its own structure afterwards.

use crate::connection::Connection;
use vstd::prelude::*;

verus! {

/// Materializes the engine's live connections during one linear walk of its
/// connection list. The driving loop feeds it every reference the walk
/// observes, in walk order, ending with the null terminator.
pub struct SnapshotBuilder {
    pub seen: Vec<Connection>,
}

impl SnapshotBuilder {
    /// Starts an empty snapshot.
    pub fn new() -> (builder: SnapshotBuilder)
        ensures
            builder.seen@ == Seq::<Connection>::empty(),
    {
        SnapshotBuilder { seen: Vec::new() }
    }

    /// Records the next raw reference the walk observed. A non-zero
    /// reference is appended to the snapshot and the walk goes on; 0 is the
    /// list's null terminator and ends the walk.
    pub fn observe(&mut self, raw: u64) -> (done: bool)
        ensures
            raw == 0 ==> done && final(self).seen@ == old(self).seen@,
            raw != 0 ==> !done && final(self).seen@ == old(self).seen@.push(
                Connection { cnx: raw },
            ),
    {
        if raw == 0 {
            true
        } else {
            self.seen.push(Connection::from_handle(raw));
            false
        }
    }

    /// Freezes the snapshot into an iterator over exactly the connections
    /// the walk observed, in walk order.
    pub fn into_iter(self) -> (iter: ConnectionIter)
        ensures
            iter.snapshot@ == self.seen@,
            iter.pos == 0,
            iter.wf(),
    {
        ConnectionIter::new(self.seen)
    }
}

/// An iterator over an immutable snapshot of connections. It no longer
/// touches engine-mutable structure, so it terminates and yields each entry
/// exactly once even while the engine reorders its own list.
pub struct ConnectionIter {
    pub snapshot: Vec<Connection>,
    pub pos: usize,
}

impl ConnectionIter {
    /// The position never runs past the snapshot.
    pub open spec fn wf(&self) -> bool {
        self.pos <= self.snapshot@.len()
    }

    /// The entries an iterator still has to yield, in order.
    pub open spec fn remaining_spec(&self) -> Seq<Connection> {
        self.snapshot@.subrange(self.pos as int, self.snapshot@.len() as int)
    }

    /// An iterator over the given snapshot, from its first entry.
    pub fn new(snapshot: Vec<Connection>) -> (iter: ConnectionIter)
        ensures
            iter.snapshot@ == snapshot@,
            iter.pos == 0,
            iter.wf(),
    {
        ConnectionIter { snapshot, pos: 0 }
    }

    /// Yields the next snapshot entry, in walk order, and `None` once every
    /// entry has been yielded.
    pub fn next(&mut self) -> (entry: Option<Connection>)
        requires
            old(self).wf(),
        ensures
            final(self).wf(),
            final(self).snapshot@ == old(self).snapshot@,
            old(self).pos < old(self).snapshot@.len() ==> entry == Some(
                old(self).snapshot@[old(self).pos as int],
            ) && final(self).pos == old(self).pos + 1,
            old(self).pos >= old(self).snapshot@.len() ==> entry is None && final(self).pos == old(
                self,
            ).pos,
    {
        if self.pos < self.snapshot.len() {
            let entry = self.snapshot[self.pos];
            self.pos = self.pos + 1;
            Some(entry)
        } else {
            None
        }
    }

    /// Drains the iterator: the enumeration terminates and yields exactly
    /// the snapshot's remaining entries, each once, in walk order.
    pub fn collect_remaining(&mut self) -> (entries: Vec<Connection>)
        requires
            old(self).wf(),
        ensures
            final(self).wf(),
            final(self).snapshot@ == old(self).snapshot@,
            final(self).pos == old(self).snapshot@.len(),
            entries@ == old(self).remaining_spec(),
    {
        let mut entries: Vec<Connection> = Vec::new();
        loop
            invariant
                self.wf(),
                self.snapshot@ == old(self).snapshot@,
                old(self).pos <= self.pos,
                entries@ == old(self).snapshot@.subrange(old(self).pos as int, self.pos as int),
            ensures
                self.wf(),
                self.snapshot@ == old(self).snapshot@,
                old(self).pos <= self.pos,
                self.pos == self.snapshot@.len(),
                entries@ == old(self).snapshot@.subrange(old(self).pos as int, self.pos as int),
            decreases self.snapshot@.len() - self.pos,
        {
            match self.next() {
                Some(entry) => {
                    entries.push(entry);
                    proof {
                        assert(entries@ =~= old(self).snapshot@.subrange(
                            old(self).pos as int,
                            self.pos as int,
                        ));
                    }
                },
                None => {
                    break ;
                },
            }
        }
        proof {
            assert(entries@ =~= old(self).remaining_spec());
        }
        entries
    }
}

} // verus!
