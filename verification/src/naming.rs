//! The key naming scheme for queue and backup lists.
//!
//! A queue named `n` lives under the namespaced key `oppgave:n`. Each worker
//! parks fetched tasks under its own backup key
//! `oppgave:n:<pid>:<worker>`, derived from the process identifier and a
//! worker-local name, so that two live workers never share a backup list.
//! Both keys are computed once, at queue construction, and are stable for
//! the queue's lifetime.

use vstd::prelude::*;
use vstd::string::StringExecFns;

verus! {

/// The decimal digit character for a value below ten.
pub open spec fn spec_digit_char(d: nat) -> char {
    if d == 0 {
        '0'
    } else if d == 1 {
        '1'
    } else if d == 2 {
        '2'
    } else if d == 3 {
        '3'
    } else if d == 4 {
        '4'
    } else if d == 5 {
        '5'
    } else if d == 6 {
        '6'
    } else if d == 7 {
        '7'
    } else if d == 8 {
        '8'
    } else {
        '9'
    }
}

/// The decimal digit characters of `n`, most significant first.
pub open spec fn spec_dec_chars(n: nat) -> Seq<char>
    decreases n,
{
    if n < 10 {
        seq![spec_digit_char(n)]
    } else {
        spec_dec_chars(n / 10).push(spec_digit_char(n % 10))
    }
}

/// A decimal spelling is never empty.
pub proof fn lemma_dec_chars_len(n: nat)
    ensures
        spec_dec_chars(n).len() >= 1,
    decreases n,
{
    if n >= 10 {
        lemma_dec_chars_len(n / 10);
    }
}

/// The store key of the queue list for a queue name.
pub open spec fn spec_queue_key(name: Seq<char>) -> Seq<char> {
    "oppgave:"@ + name
}

/// The store key of the backup list for a worker of a queue.
pub open spec fn spec_backup_key(name: Seq<char>, pid: u64, worker: Seq<char>) -> Seq<char> {
    spec_queue_key(name) + ":"@ + spec_dec_chars(pid as nat) + ":"@ + worker
}

/// A worker's backup key is never the queue key itself: the backup key is
/// strictly longer, whatever the name, process and worker identity.
pub proof fn lemma_keys_distinct(name: Seq<char>, pid: u64, worker: Seq<char>)
    ensures
        spec_backup_key(name, pid, worker) != spec_queue_key(name),
{
    reveal_strlit(":");
    lemma_dec_chars_len(pid as nat);
    assert(spec_backup_key(name, pid, worker).len() > spec_queue_key(name).len());
}

/// The single-character string for a decimal digit value.
fn digit_str(d: u64) -> (r: &'static str)
    requires
        d < 10,
    ensures
        r@ == seq![spec_digit_char(d as nat)],
{
    proof {
        reveal_strlit("0");
        reveal_strlit("1");
        reveal_strlit("2");
        reveal_strlit("3");
        reveal_strlit("4");
        reveal_strlit("5");
        reveal_strlit("6");
        reveal_strlit("7");
        reveal_strlit("8");
        reveal_strlit("9");
    }
    match d {
        0 => "0",
        1 => "1",
        2 => "2",
        3 => "3",
        4 => "4",
        5 => "5",
        6 => "6",
        7 => "7",
        8 => "8",
        _ => "9",
    }
}

/// The decimal spelling of `n`, most significant digit first.
pub fn u64_to_dec_string(n: u64) -> (r: String)
    ensures
        r@ == spec_dec_chars(n as nat),
    decreases n,
{
    if n < 10 {
        let r = digit_str(n).to_owned();
        assert(r@ =~= spec_dec_chars(n as nat));
        r
    } else {
        let mut r = u64_to_dec_string(n / 10);
        r.append(digit_str(n % 10));
        assert(r@ =~= spec_dec_chars(n as nat));
        r
    }
}

/// The store key of the queue list for the queue named `name`.
pub fn queue_key(name: &str) -> (r: String)
    ensures
        r@ == spec_queue_key(name@),
{
    let mut r = "oppgave:".to_owned();
    r.append(name);
    r
}

/// The store key of the backup list for the worker identified by `pid` and
/// `worker` on the queue named `name`.
pub fn backup_key(name: &str, pid: u64, worker: &str) -> (r: String)
    ensures
        r@ == spec_backup_key(name@, pid, worker@),
{
    let mut r = queue_key(name);
    r.append(":");
    let digits = u64_to_dec_string(pid);
    r.append(digits.as_str());
    r.append(":");
    r.append(worker);
    assert(r@ =~= spec_backup_key(name@, pid, worker@));
    r
}

} // verus!
