use bankbot::LocalQueue;
use bankbot::job::{Issue, Job, Repo, User};

fn job(tag: &str) -> Job {
    Job {
        command: vec![format!(".github/bot/{}.rhai", tag), "arg".to_string()],
        user: User { login: "alice".to_string() },
        repository: Repo {
            id: 42,
            name: "r".to_string(),
            url: format!("https://example.com/o/r"),
            owner: User { login: "o".to_string() },
            clone_url: "https://example.com/o/r.git".to_string(),
        },
        issue: Issue { number: 7 },
    }
}

#[test]
fn new_queue_is_empty() {
    let q = LocalQueue::new();
    assert_eq!(q.len(), 0);
    assert!(q.is_empty());
}

#[test]
fn fifo_order_across_removes() {
    let mut q = LocalQueue::new();
    assert_eq!(q.add("a".to_string(), job("one")), 0);
    assert_eq!(q.add("b".to_string(), job("two")), 1);
    assert_eq!(q.add("c".to_string(), job("three")), 2);
    let first = q.remove().expect("front job");
    assert_eq!(first.command[0], ".github/bot/one.rhai");
    let second = q.remove().expect("second job");
    assert_eq!(second.command[0], ".github/bot/two.rhai");
    assert_eq!(q.add("d".to_string(), job("four")), 1);
    let third = q.remove().expect("third job");
    assert_eq!(third.command[0], ".github/bot/three.rhai");
    let fourth = q.remove().expect("fourth job");
    assert_eq!(fourth.command[0], ".github/bot/four.rhai");
    assert!(q.remove().is_none());
}

#[test]
fn dedup_by_key() {
    let mut q = LocalQueue::new();
    assert_eq!(q.add("k".to_string(), job("one")), 0);
    assert_eq!(q.add("k".to_string(), job("two")), 0);
    assert_eq!(q.len(), 1);
    assert_eq!(q.pos("k".to_string()), Some(0));
    let front = q.remove().expect("front job");
    assert_eq!(front.command[0], ".github/bot/two.rhai");
}

#[test]
fn dedup_keeps_position() {
    let mut q = LocalQueue::new();
    q.add("a".to_string(), job("one"));
    q.add("b".to_string(), job("two"));
    assert_eq!(q.add("a".to_string(), job("three")), 0);
    assert_eq!(q.len(), 2);
    assert_eq!(q.pos("a".to_string()), Some(0));
    assert_eq!(q.pos("b".to_string()), Some(1));
    let front = q.remove().expect("front job");
    assert_eq!(front.command[0], ".github/bot/three.rhai");
}

#[test]
fn pos_of_missing_key() {
    let mut q = LocalQueue::new();
    q.add("a".to_string(), job("one"));
    assert_eq!(q.pos("zzz".to_string()), None);
}

#[test]
fn watcher_short_circuits_add() {
    let mut q = LocalQueue::new();
    let (send, recv) = async_std::channel::bounded(1);
    q.register_watcher(send);
    assert_eq!(q.len(), 0);
    q.add("k".to_string(), job("one"));
    assert_eq!(q.len(), 0);
    let delivered = recv.try_recv().expect("watcher should have the job");
    assert_eq!(delivered.command[0], ".github/bot/one.rhai");
    // The watcher was single-shot: the next add queues normally.
    q.add("k2".to_string(), job("two"));
    assert_eq!(q.len(), 1);
    assert!(recv.try_recv().is_err());
}

#[test]
fn remove_from_queue_empty_not_polling() {
    let mut q = LocalQueue::new();
    match bankbot::local_queue::remove_from_queue(&mut q, false) {
        bankbot::local_queue::DequeueOutcome::NotFound => {},
        _ => panic!("an empty queue without long-polling answers not-found"),
    }
    assert_eq!(q.len(), 0);
}

#[test]
fn remove_from_queue_with_job() {
    let mut q = LocalQueue::new();
    q.add("k".to_string(), job("one"));
    match bankbot::local_queue::remove_from_queue(&mut q, true) {
        bankbot::local_queue::DequeueOutcome::Found(j) => {
            assert_eq!(j.command[0], ".github/bot/one.rhai");
        },
        _ => panic!("a queued job is handed out"),
    }
    assert_eq!(q.len(), 0);
}

#[test]
fn remove_from_queue_long_poll_delivers_next_add() {
    let mut q = LocalQueue::new();
    let receiver = match bankbot::local_queue::remove_from_queue(&mut q, true) {
        bankbot::local_queue::DequeueOutcome::Wait(r) => r,
        _ => panic!("an empty queue with long-polling waits"),
    };
    assert!(receiver.try_recv().is_err());
    q.add("k".to_string(), job("one"));
    assert_eq!(q.len(), 0);
    let delivered = receiver.try_recv().expect("the add is delivered to the waiter");
    assert_eq!(delivered.command[0], ".github/bot/one.rhai");
    assert_eq!(delivered.issue.number, 7);
}
