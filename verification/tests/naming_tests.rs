use oppgave::naming::{backup_key, queue_key, u64_to_dec_string};
use oppgave::queue::Queue;

#[test]
fn derives_namespaced_keys() {
    assert_eq!("oppgave:default", queue_key("default"));
    assert_eq!(
        "oppgave:default:4321:worker-1",
        backup_key("default", 4321, "worker-1")
    );
}

#[test]
fn formats_decimal_strings() {
    assert_eq!("0", u64_to_dec_string(0));
    assert_eq!("7", u64_to_dec_string(7));
    assert_eq!("10", u64_to_dec_string(10));
    assert_eq!("4321", u64_to_dec_string(4321));
    assert_eq!("18446744073709551615", u64_to_dec_string(u64::MAX));
}

#[test]
fn queue_reports_its_keys() {
    let q = Queue::new("default".to_string(), 99, "w1".to_string());
    assert_eq!("oppgave:default", q.queue());
    assert_eq!("oppgave:default:99:w1", q.backup_queue());
    assert_ne!(q.queue(), q.backup_queue());
}
