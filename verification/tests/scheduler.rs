//! Service queue tests: one due request per poll, earliest first.

use tek4404::service::{ServiceKey, ServiceQueue, ServiceRequest};

/// `take` returns nothing until the earliest deadline has elapsed, then
/// exactly that one entry, then nothing again before the next deadline.
#[test]
fn take_returns_one_due_entry() {
    let mut q = ServiceQueue::new();
    q.schedule(ServiceKey::Scsi, 100, 50);

    assert_eq!(None, q.take(100));
    assert_eq!(None, q.take(150)); // deadline not yet strictly passed
    assert_eq!(
        Some(ServiceRequest { key: ServiceKey::Scsi, when: 150 }),
        q.take(151)
    );
    assert_eq!(None, q.take(151));
    assert_eq!(None, q.take(1000));
}

/// With several requests queued, polls drain them earliest first, one per
/// poll, and leave the not-yet-due one alone.
#[test]
fn take_drains_earliest_first() {
    let mut q = ServiceQueue::new();
    q.schedule(ServiceKey::Scsi, 0, 300);
    q.schedule(ServiceKey::Scsi, 0, 100);
    q.schedule(ServiceKey::Scsi, 0, 200);

    assert_eq!(
        Some(ServiceRequest { key: ServiceKey::Scsi, when: 100 }),
        q.take(250)
    );
    assert_eq!(
        Some(ServiceRequest { key: ServiceKey::Scsi, when: 200 }),
        q.take(250)
    );
    assert_eq!(None, q.take(250));
    assert_eq!(
        Some(ServiceRequest { key: ServiceKey::Scsi, when: 300 }),
        q.take(301)
    );
    assert_eq!(None, q.take(10000));
}

/// Requests with equal deadlines come out one per poll, in queue order.
#[test]
fn take_breaks_ties_in_queue_order() {
    let mut q = ServiceQueue::new();
    q.schedule(ServiceKey::Scsi, 5, 5);
    q.schedule(ServiceKey::Scsi, 0, 10);
    assert_eq!(2, q.queue.len());
    assert!(q.take(11).is_some());
    assert!(q.take(11).is_some());
    assert_eq!(None, q.take(11));
}
