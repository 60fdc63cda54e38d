//! Encoding and decoding of tasks to and from stored byte payloads.
//!
//! A task is stored as the JSON object `{"id":<n>}` with `<n>` the decimal
//! digits of its identifier. Encoding is total; decoding rejects every byte
//! sequence that is not a canonical encoding with a typed error instead of
//! panicking.

use vstd::prelude::*;

verus! {

/// Error returned when a stored payload cannot be decoded into a task.
#[derive(Clone, Copy, Debug, PartialEq, Eq, Structural)]
pub enum DecodeError {
    /// The bytes are not a valid encoding of a task.
    Malformed,
}

/// The ASCII decimal digits of `n`, most significant first.
pub open spec fn spec_dec_bytes(n: nat) -> Seq<u8>
    decreases n,
{
    if n < 10 {
        seq![(48 + n) as u8]
    } else {
        spec_dec_bytes(n / 10).push((48 + n % 10) as u8)
    }
}

/// Every byte of `s` is an ASCII decimal digit.
pub open spec fn spec_is_digits(s: Seq<u8>) -> bool {
    forall|i: int| 0 <= i < s.len() ==> 48 <= #[trigger] s[i] <= 57
}

/// The value denoted by a big-endian sequence of ASCII decimal digits.
pub open spec fn spec_dec_value(s: Seq<u8>) -> nat
    decreases s.len(),
{
    if s.len() == 0 {
        0
    } else {
        (spec_dec_value(s.drop_last()) * 10 + (s.last() - 48)) as nat
    }
}

/// `s` is the canonical decimal spelling of a value that fits in a `u64`:
/// nonempty digits, no redundant leading zero, value within range.
pub open spec fn spec_is_canonical_u64(s: Seq<u8>) -> bool {
    &&& s.len() > 0
    &&& spec_is_digits(s)
    &&& (s.len() == 1 || s[0] != 48)
    &&& spec_dec_value(s) <= u64::MAX
}

/// The decimal digits of any value are digits, start without a redundant
/// zero, and denote that value again.
pub proof fn lemma_dec_bytes_canonical(n: u64)
    ensures
        spec_is_digits(spec_dec_bytes(n as nat)),
        spec_dec_bytes(n as nat).len() > 0,
        n >= 1 ==> spec_dec_bytes(n as nat)[0] != 48,
        n < 10 <==> spec_dec_bytes(n as nat).len() == 1,
        spec_dec_value(spec_dec_bytes(n as nat)) == n,
        spec_is_canonical_u64(spec_dec_bytes(n as nat)),
    decreases n,
{
    if n < 10 {
        let s = spec_dec_bytes(n as nat);
        assert(s.drop_last() =~= Seq::<u8>::empty());
        assert(spec_dec_value(s.drop_last()) == 0);
        assert(s.last() == (48 + n) as u8);
        assert(spec_dec_value(s) == n);
    } else {
        lemma_dec_bytes_canonical(n / 10);
        let p = spec_dec_bytes((n / 10) as nat);
        let s = spec_dec_bytes(n as nat);
        assert(s =~= p.push((48 + n % 10) as u8));
        assert(s.drop_last() =~= p);
        assert(s.last() == (48 + n % 10) as u8);
        assert(spec_dec_value(s) == spec_dec_value(p) * 10 + (n % 10));
        assert(spec_dec_value(p) == n / 10);
        assert((n / 10) * 10 + n % 10 == n);
        assert(s[0] == p[0]);
    }
}

/// The value of a prefix of a digit string never exceeds the whole.
pub proof fn lemma_dec_value_prefix_le(s: Seq<u8>, i: int)
    requires
        0 <= i <= s.len(),
        spec_is_digits(s),
    ensures
        spec_dec_value(s.take(i)) <= spec_dec_value(s),
    decreases s.len() - i,
{
    if i < s.len() {
        assert(s.take(i + 1).drop_last() =~= s.take(i));
        assert(s.take(i + 1).last() == s[i]);
        assert(spec_dec_value(s.take(i)) <= spec_dec_value(s.take(i + 1)));
        lemma_dec_value_prefix_le(s, i + 1);
    } else {
        assert(s.take(i) =~= s);
    }
}

/// The decimal digits of `n`, most significant first, as a byte vector.
pub fn u64_to_dec_bytes(n: u64) -> (r: Vec<u8>)
    ensures
        r@ == spec_dec_bytes(n as nat),
{
    let mut digits: Vec<u8> = Vec::new();
    if n == 0 {
        digits.push(48);
        assert(digits@ =~= spec_dec_bytes(0));
        return digits;
    }
    let mut m: u64 = n;
    while m > 0
        invariant
            spec_dec_bytes(n as nat) =~= if m > 0 {
                spec_dec_bytes(m as nat) + digits@
            } else {
                digits@
            },
        decreases m,
    {
        let d: u8 = (m % 10) as u8 + 48;
        let ghost old_digits = digits@;
        digits.insert(0, d);
        assert(digits@ =~= seq![d] + old_digits);
        proof {
            if m >= 10 {
                assert(spec_dec_bytes(m as nat) =~= spec_dec_bytes((m / 10) as nat) + seq![d]);
                assert(spec_dec_bytes((m / 10) as nat) + seq![d] + old_digits =~= spec_dec_bytes(
                    (m / 10) as nat,
                ) + (seq![d] + old_digits));
            } else {
                assert(spec_dec_bytes(m as nat) =~= seq![d]);
            }
        }
        m = m / 10;
    }
    digits
}

/// Parse a big-endian decimal digit string into a `u64`.
///
/// Returns `Some` exactly on canonical spellings (nonempty, digits only, no
/// redundant leading zero, value in range) and then returns their value.
pub fn parse_dec_u64(digits: &[u8]) -> (r: Option<u64>)
    ensures
        match r {
            Some(v) => spec_is_canonical_u64(digits@) && v == spec_dec_value(digits@),
            None => !spec_is_canonical_u64(digits@),
        },
{
    let n = digits.len();
    if n == 0 {
        return None;
    }
    if n > 1 && digits[0] == 48 {
        return None;
    }
    let mut acc: u64 = 0;
    let mut i: usize = 0;
    while i < n
        invariant
            n == digits@.len(),
            0 < n,
            i <= n,
            n > 1 ==> digits@[0] != 48,
            spec_is_digits(digits@.take(i as int)),
            acc == spec_dec_value(digits@.take(i as int)),
        decreases n - i,
    {
        let b = digits[i];
        if b < 48 || b > 57 {
            return None;
        }
        let d: u8 = b - 48;
        if acc > (u64::MAX - d as u64) / 10 {
            proof {
                let t = digits@.take(i + 1);
                assert(t.drop_last() =~= digits@.take(i as int));
                assert(t.last() == digits@[i as int]);
                assert(spec_dec_value(t) == acc * 10 + d);
                assert(acc * 10 + d > u64::MAX) by (nonlinear_arith)
                    requires
                        acc > (u64::MAX - d as u64) / 10,
                        d < 10,
                ;
                if spec_is_digits(digits@) {
                    lemma_dec_value_prefix_le(digits@, i + 1);
                }
            }
            return None;
        }
        proof {
            let t = digits@.take(i + 1);
            assert(t.drop_last() =~= digits@.take(i as int));
            assert(t.last() == digits@[i as int]);
            assert(acc * 10 + d <= u64::MAX) by (nonlinear_arith)
                requires
                    acc <= (u64::MAX - d as u64) / 10,
                    d < 10,
            ;
        }
        acc = acc * 10 + d as u64;
        i = i + 1;
    }
    proof {
        assert(digits@.take(n as int) =~= digits@);
    }
    Some(acc)
}

/// The bytes of `{"id":`, the frame that precedes the digits.
pub open spec fn spec_frame_prefix() -> Seq<u8> {
    seq![123u8, 34u8, 105u8, 100u8, 34u8, 58u8]
}

/// The canonical payload for a task identifier: `{"id":<digits>}`.
pub open spec fn spec_encode_id(id: u64) -> Seq<u8> {
    spec_frame_prefix() + spec_dec_bytes(id as nat) + seq![125u8]
}

/// The identifier a payload decodes to, or `None` for anything that is not a
/// canonical `{"id":<digits>}` frame.
pub open spec fn spec_decode_id(b: Seq<u8>) -> Option<u64> {
    if b.len() >= 8 && b.subrange(0, 6) == spec_frame_prefix() && b.last() == 125
        && spec_is_canonical_u64(b.subrange(6, b.len() - 1)) {
        Some(spec_dec_value(b.subrange(6, b.len() - 1)) as u64)
    } else {
        None
    }
}

/// Task objects that can be encoded into a byte payload to store.
///
/// `spec_encode` fixes the payload an implementation promises to produce;
/// encoding is total, so a push can never fail on the task itself.
pub trait TaskEncodable {
    /// The payload the value encodes to.
    spec fn spec_encode(&self) -> Seq<u8>;

    /// Encode the task into the payload named by `spec_encode`.
    fn encode_task(&self) -> (r: Vec<u8>)
        ensures
            r@ == self.spec_encode(),
    ;
}

/// Task objects that can be reconstructed from a stored byte payload.
///
/// `spec_decode` fixes, for every byte sequence, whether it is a valid
/// encoding and of which task; decoding reports `Malformed` on exactly the
/// sequences it rejects, never panicking.
pub trait TaskDecodable where Self: Sized {
    /// The task a payload decodes to, if it is a valid encoding.
    spec fn spec_decode(b: Seq<u8>) -> Option<Self>;

    /// Decode a payload, succeeding exactly on the bytes `spec_decode` accepts.
    fn decode_task(bytes: &[u8]) -> (r: Result<Self, DecodeError>)
        ensures
            match r {
                Ok(t) => Self::spec_decode(bytes@) == Some(t),
                Err(e) => Self::spec_decode(bytes@) is None && e == DecodeError::Malformed,
            },
    ;
}

/// A task carrying a numeric identifier, stored as `{"id":<n>}`.
#[derive(Clone, Copy, Debug, PartialEq, Eq, Structural)]
pub struct Job {
    /// The task's identifier.
    pub id: u64,
}

impl TaskEncodable for Job {
    open spec fn spec_encode(&self) -> Seq<u8> {
        spec_encode_id(self.id)
    }

    fn encode_task(&self) -> (r: Vec<u8>) {
        let mut out: Vec<u8> = Vec::new();
        out.push(123);
        out.push(34);
        out.push(105);
        out.push(100);
        out.push(34);
        out.push(58);
        assert(out@ =~= spec_frame_prefix());
        let mut digits = u64_to_dec_bytes(self.id);
        out.append(&mut digits);
        out.push(125);
        assert(out@ =~= spec_encode_id(self.id));
        out
    }
}

impl TaskDecodable for Job {
    open spec fn spec_decode(b: Seq<u8>) -> Option<Job> {
        match spec_decode_id(b) {
            Some(id) => Some(Job { id }),
            None => None,
        }
    }

    fn decode_task(bytes: &[u8]) -> (r: Result<Job, DecodeError>) {
        let n = bytes.len();
        if n < 8 {
            return Err(DecodeError::Malformed);
        }
        if bytes[0] != 123 || bytes[1] != 34 || bytes[2] != 105 || bytes[3] != 100 || bytes[4]
            != 34 || bytes[5] != 58 {
            proof {
                if bytes@.subrange(0, 6) == spec_frame_prefix() {
                    assert(bytes@[0] == 123 && bytes@[1] == 34 && bytes@[2] == 105 && bytes@[3]
                        == 100 && bytes@[4] == 34 && bytes@[5] == 58);
                }
            }
            return Err(DecodeError::Malformed);
        }
        if bytes[n - 1] != 125 {
            return Err(DecodeError::Malformed);
        }
        let mut digits: Vec<u8> = Vec::new();
        let mut i: usize = 6;
        while i < n - 1
            invariant
                n == bytes@.len(),
                8 <= n,
                6 <= i <= n - 1,
                digits@ =~= bytes@.subrange(6, i as int),
            decreases n - i,
        {
            digits.push(bytes[i]);
            i = i + 1;
        }
        assert(digits@ =~= bytes@.subrange(6, n - 1));
        assert(bytes@.subrange(0, 6) =~= spec_frame_prefix());
        match parse_dec_u64(digits.as_slice()) {
            Some(id) => Ok(Job { id }),
            None => Err(DecodeError::Malformed),
        }
    }
}

/// Round trip: every task's canonical payload decodes back to that task.
pub proof fn lemma_encode_decode_id(id: u64)
    ensures
        spec_decode_id(spec_encode_id(id)) == Some(id),
{
    lemma_dec_bytes_canonical(id);
    let d = spec_dec_bytes(id as nat);
    let b = spec_encode_id(id);
    assert(b.subrange(0, 6) =~= spec_frame_prefix());
    assert(b.last() == 125);
    assert(b.subrange(6, b.len() - 1) =~= d);
}

} // verus!
