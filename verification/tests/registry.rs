use picoquic_core::connection::Connection;
use picoquic_core::registry::{ConnectionIter, SnapshotBuilder};

/// A stand-in for the engine's internal linked list of connections: a
/// sequence of raw references that the engine may reorder at any time
/// between two calls of the walk.
struct EngineList {
    raws: Vec<u64>,
}

impl EngineList {
    fn first(&self) -> u64 {
        self.raws.first().copied().unwrap_or(0)
    }

    fn next(&self, current: u64) -> u64 {
        match self.raws.iter().position(|&raw| raw == current) {
            Some(i) => self.raws.get(i + 1).copied().unwrap_or(0),
            None => 0,
        }
    }

    fn reorder(&mut self) {
        // Promote the tail entry to the head, as the engine does with an
        // active connection.
        if let Some(last) = self.raws.pop() {
            self.raws.insert(0, last);
        }
    }
}

fn snapshot(list: &EngineList) -> ConnectionIter {
    let mut builder = SnapshotBuilder::new();
    let mut current = list.first();
    while !builder.observe(current) {
        current = list.next(current);
    }
    builder.into_iter()
}

#[test]
fn enumeration_yields_every_connection_in_walk_order() {
    let list = EngineList {
        raws: vec![11, 22, 33, 44, 55],
    };
    let mut iter = snapshot(&list);
    let entries = iter.collect_remaining();
    assert_eq!(entries.len(), 5);
    let raws: Vec<u64> = entries.iter().map(|c| c.as_raw()).collect();
    assert_eq!(raws, vec![11, 22, 33, 44, 55]);
    assert_eq!(iter.next(), None);
}

#[test]
fn enumeration_of_no_connections_is_empty() {
    let list = EngineList { raws: Vec::new() };
    let mut iter = snapshot(&list);
    assert_eq!(iter.next(), None);
    assert_eq!(iter.collect_remaining().len(), 0);
}

#[test]
fn snapshot_is_stable_under_concurrent_reordering() {
    let mut list = EngineList {
        raws: vec![1, 2, 3, 4, 5, 6],
    };
    let expected: Vec<u64> = list.raws.clone();
    let mut iter = snapshot(&list);

    // The engine reorders its own structure while the caller is still
    // consuming the snapshot: the snapshot must not notice.
    let mut yielded: Vec<u64> = Vec::new();
    while let Some(con) = iter.next() {
        list.reorder();
        yielded.push(con.as_raw());
    }

    assert_eq!(yielded.len(), expected.len());
    assert_eq!(yielded, expected);
    assert_eq!(iter.next(), None);
}

#[test]
fn next_steps_through_the_snapshot_once() {
    let mut builder = SnapshotBuilder::new();
    assert!(!builder.observe(7));
    assert!(!builder.observe(8));
    assert!(builder.observe(0));
    let mut iter = builder.into_iter();
    assert_eq!(iter.next(), Some(Connection::from_handle(7)));
    assert_eq!(iter.next(), Some(Connection::from_handle(8)));
    assert_eq!(iter.next(), None);
    assert_eq!(iter.next(), None);
}
