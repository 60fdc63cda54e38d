use oppgave::codec::Job;
use oppgave::queue::{fetch_outcome, FetchError, Queue, StoreError, StoreReply};

#[test]
fn decodes_job() {
    let mut worker = Queue::new("default".to_string(), 4321, "default".to_string());
    worker.push_raw(b"{\"id\":42}".to_vec());
    let j = worker.next::<Job>().unwrap().unwrap();
    assert_eq!(42, j.inner().id);
}

#[test]
fn releases_job() {
    let mut worker = Queue::new("default".to_string(), 4321, "default".to_string());
    worker.push_raw(b"{\"id\":42}".to_vec());

    let j = worker.next::<Job>().unwrap().unwrap();
    assert_eq!(42, j.inner().id);
    {
        let in_backup = worker.backup_range();
        assert_eq!(1, in_backup.len());
        assert_eq!(b"{\"id\":42}".to_vec(), in_backup[0]);
    }
    worker.resolve(j);

    assert_eq!(0, worker.backup_len());
}

#[test]
fn can_be_stopped() {
    let mut worker = Queue::new("stopper".to_string(), 4321, "default".to_string());
    worker.push_raw(b"{\"id\":1}".to_vec());
    worker.push_raw(b"{\"id\":2}".to_vec());
    worker.push_raw(b"{\"id\":3}".to_vec());

    assert_eq!(3, worker.size());

    while let Some(task) = worker.next::<Job>() {
        let _task = task.unwrap();
        worker.stop();
    }

    assert_eq!(2, worker.size());
}

#[test]
fn can_enqueue() {
    let mut worker = Queue::new("enqueue".to_string(), 4321, "default".to_string());

    assert_eq!(0, worker.size());

    worker.push(Job { id: 53 }).unwrap();

    assert_eq!(1, worker.size());

    let j = worker.next::<Job>().unwrap().unwrap();
    assert_eq!(53, j.inner().id);
}

#[test]
fn does_not_drop_failed() {
    let mut worker = Queue::new("failure".to_string(), 4321, "default".to_string());
    worker.push_raw(b"{\"id\":1}".to_vec());

    let mut task = worker.next::<Job>().unwrap().unwrap();
    task.fail();
    worker.resolve(task);

    assert_eq!(1, worker.backup_len());
}

#[test]
fn stop_halts_fetching() {
    let mut worker = Queue::new("stopper".to_string(), 1, "w".to_string());
    worker.push(Job { id: 9 }).unwrap();
    worker.stop();
    assert!(worker.is_stopped());
    assert!(worker.next::<Job>().is_none());
    assert!(worker.next::<Job>().is_none());
    assert_eq!(1, worker.size());
    assert_eq!(0, worker.backup_len());
}

#[test]
fn fifo_order() {
    let mut worker = Queue::new("fifo".to_string(), 1, "w".to_string());
    worker.push(Job { id: 1 }).unwrap();
    worker.push(Job { id: 2 }).unwrap();
    worker.push(Job { id: 3 }).unwrap();
    let j = worker.next::<Job>().unwrap().unwrap();
    assert_eq!(1, j.inner().id);
    assert_eq!(2, worker.size());
}

#[test]
fn empty_queue_times_out() {
    let mut worker = Queue::new("empty".to_string(), 1, "w".to_string());
    match worker.next::<Job>() {
        Some(Err(e)) => assert_eq!(FetchError::Timeout, e),
        _ => panic!("expected a timeout on an empty queue"),
    }
    assert_eq!(0, worker.size());
    assert_eq!(0, worker.backup_len());
}

#[test]
fn malformed_payload_stays_parked() {
    let mut worker = Queue::new("broken".to_string(), 1, "w".to_string());
    worker.push_raw(b"not json".to_vec());
    match worker.next::<Job>() {
        Some(Err(e)) => assert_eq!(FetchError::Decode, e),
        _ => panic!("expected a decode failure"),
    }
    assert_eq!(0, worker.size());
    assert_eq!(1, worker.backup_len());
    assert_eq!(b"not json".to_vec(), worker.backup_range()[0]);
}

#[test]
fn fail_is_idempotent() {
    let mut worker = Queue::new("failure".to_string(), 1, "w".to_string());
    worker.push(Job { id: 5 }).unwrap();
    let mut task = worker.next::<Job>().unwrap().unwrap();
    task.fail();
    task.fail();
    assert!(task.is_failed());
    assert_eq!(5, task.inner().id);
    worker.resolve(task);
    assert_eq!(1, worker.backup_len());
}

#[test]
fn classifies_transport_failure() {
    let r: Result<Job, FetchError> = fetch_outcome(Err(StoreError::Transport));
    match r {
        Err(e) => assert_eq!(FetchError::Transport, e),
        Ok(_) => panic!("expected a transport error"),
    }
}

#[test]
fn classifies_unexpected_replies() {
    let r: Result<Job, FetchError> = fetch_outcome(Ok(StoreReply::Nil));
    match r {
        Err(e) => assert_eq!(FetchError::UnexpectedReply, e),
        Ok(_) => panic!("expected an unexpected-reply error"),
    }
    let r: Result<Job, FetchError> = fetch_outcome(Ok(StoreReply::Other));
    match r {
        Err(e) => assert_eq!(FetchError::UnexpectedReply, e),
        Ok(_) => panic!("expected an unexpected-reply error"),
    }
}

#[test]
fn classifies_payload_replies() {
    let r: Result<Job, FetchError> = fetch_outcome(Ok(StoreReply::Payload(b"{\"id\":7}".to_vec())));
    assert_eq!(7, r.unwrap().id);
    let r: Result<Job, FetchError> = fetch_outcome(Ok(StoreReply::Payload(b"xx".to_vec())));
    assert_eq!(FetchError::Decode, r.unwrap_err());
}
