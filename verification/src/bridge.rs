//! Transport framing of the editing-engine bridge.
//!
//! Requests to the external editing engine are single JSON objects
//! `{"id": <number>, "method": "<name>", "params": <value>}`, one per
//! line, terminated by exactly one newline; responses are read back as
//! whole newline-terminated lines, strictly in first-in first-out order.
//! This module builds request lines and splits response streams, both
//! byte-exactly; the embedding owns the child process and its pipes and
//! only moves bytes.

use vstd::prelude::*;

verus! {

/// The line terminator of the protocol.
pub const NEWLINE: u8 = 10;

/// `s` holds no line terminator.
pub open spec fn no_nl(s: Seq<u8>) -> bool {
    forall|i: int| 0 <= i < s.len() ==> s[i] != NEWLINE
}

/// One complete frame: non-empty, ends with the only newline it holds.
pub open spec fn is_single_line(s: Seq<u8>) -> bool {
    &&& s.len() > 0
    &&& s[s.len() - 1] == NEWLINE
    &&& no_nl(s.subrange(0, s.len() - 1))
}

/// The decimal digits of `n`, most significant first.
pub open spec fn dec_digits(n: nat) -> Seq<u8>
    decreases n,
{
    if n < 10 {
        seq![(48 + n) as u8]
    } else {
        dec_digits(n / 10) + seq![(48 + n % 10) as u8]
    }
}

/// Decimal digits are ASCII digits; in particular none is a newline.
pub proof fn lemma_dec_digits_ascii(n: nat)
    ensures
        forall|i: int| 0 <= i < dec_digits(n).len() ==> 48 <= #[trigger] dec_digits(n)[i] <= 57,
    decreases n,
{
    if n >= 10 {
        lemma_dec_digits_ascii(n / 10);
        assert forall|i: int| 0 <= i < dec_digits(n).len()
            implies 48 <= #[trigger] dec_digits(n)[i] <= 57 by {
            if i < dec_digits(n / 10).len() {
                assert(dec_digits(n)[i] == dec_digits(n / 10)[i]);
            }
        }
    }
}

/// The bytes `{"id":` that open a request object.
pub open spec fn id_prefix() -> Seq<u8> {
    seq![123u8, 34u8, 105u8, 100u8, 34u8, 58u8]
}

/// The bytes `,"method":"` between the id and the method name.
pub open spec fn method_prefix() -> Seq<u8> {
    seq![44u8, 34u8, 109u8, 101u8, 116u8, 104u8, 111u8, 100u8, 34u8, 58u8, 34u8]
}

/// The bytes `","params":` between the method name and the params value.
pub open spec fn params_prefix() -> Seq<u8> {
    seq![34u8, 44u8, 34u8, 112u8, 97u8, 114u8, 97u8, 109u8, 115u8, 34u8, 58u8]
}

/// The closing brace and the newline that terminate the request line.
pub open spec fn line_close() -> Seq<u8> {
    seq![125u8, 10u8]
}

/// The one line that a request with the given id, method name and
/// serialized params is framed as.
pub open spec fn request_line(id: nat, method: Seq<u8>, params: Seq<u8>) -> Seq<u8> {
    id_prefix() + dec_digits(id) + method_prefix() + method + params_prefix() + params
        + line_close()
}

/// Appends all of `src` to `dst`.
#[verifier::loop_isolation(false)]
fn append_bytes(dst: &mut Vec<u8>, src: &Vec<u8>)
    ensures
        final(dst)@ == old(dst)@ + src@,
{
    let n = src.len();
    let mut i: usize = 0;
    while i < n
        invariant
            0 <= i <= n,
            n == src@.len(),
            dst@ == old(dst)@ + src@.subrange(0, i as int),
        decreases n - i,
    {
        dst.push(src[i]);
        proof {
            assert(src@.subrange(0, i as int).push(src@[i as int]) =~= src@.subrange(
                0,
                i as int + 1,
            ));
            assert(dst@ =~= old(dst)@ + src@.subrange(0, i as int + 1));
        }
        i = i + 1;
    }
    proof {
        assert(src@.subrange(0, n as int) =~= src@);
    }
}

/// The decimal digits of `n`, as bytes.
fn u64_to_decimal(n: u64) -> (r: Vec<u8>)
    ensures
        r@ == dec_digits(n as nat),
    decreases n,
{
    if n < 10 {
        let mut r: Vec<u8> = Vec::new();
        r.push(48 + (n as u8));
        proof {
            assert(r@ =~= dec_digits(n as nat));
        }
        r
    } else {
        let mut r = u64_to_decimal(n / 10);
        r.push(48 + ((n % 10) as u8));
        proof {
            assert(r@ =~= dec_digits(n as nat));
        }
        r
    }
}

/// Frames one request as a single newline-terminated JSON line. The
/// method name must need no JSON string escaping, and neither it nor the
/// serialized params value may hold a newline, so that the frame is one
/// line and the protocol stays unambiguous.
pub fn format_request(id: u64, method: &Vec<u8>, params: &Vec<u8>) -> (r: Vec<u8>)
    requires
        no_nl(method@),
        no_nl(params@),
        forall|i: int| 0 <= i < method@.len() ==> method@[i] != 34 && method@[i] != 92,
    ensures
        r@ == request_line(id as nat, method@, params@),
        is_single_line(r@),
{
    let mut r: Vec<u8> = Vec::new();
    r.push(123);
    r.push(34);
    r.push(105);
    r.push(100);
    r.push(34);
    r.push(58);
    proof {
        assert(r@ =~= id_prefix());
    }
    let digits = u64_to_decimal(id);
    append_bytes(&mut r, &digits);
    let mut mid: Vec<u8> = Vec::new();
    mid.push(44);
    mid.push(34);
    mid.push(109);
    mid.push(101);
    mid.push(116);
    mid.push(104);
    mid.push(111);
    mid.push(100);
    mid.push(34);
    mid.push(58);
    mid.push(34);
    proof {
        assert(mid@ =~= method_prefix());
    }
    append_bytes(&mut r, &mid);
    append_bytes(&mut r, method);
    let mut psep: Vec<u8> = Vec::new();
    psep.push(34);
    psep.push(44);
    psep.push(34);
    psep.push(112);
    psep.push(97);
    psep.push(114);
    psep.push(97);
    psep.push(109);
    psep.push(115);
    psep.push(34);
    psep.push(58);
    proof {
        assert(psep@ =~= params_prefix());
    }
    append_bytes(&mut r, &psep);
    append_bytes(&mut r, params);
    r.push(125);
    r.push(10);
    proof {
        assert(r@ =~= request_line(id as nat, method@, params@));
        lemma_request_line_single(id as nat, method@, params@);
    }
    r
}

/// A request line is one complete frame: it ends with its only newline.
pub proof fn lemma_request_line_single(id: nat, method: Seq<u8>, params: Seq<u8>)
    requires
        no_nl(method),
        no_nl(params),
    ensures
        is_single_line(request_line(id, method, params)),
{
    lemma_dec_digits_ascii(id);
    let s = request_line(id, method, params);
    let body = s.subrange(0, s.len() - 1);
    assert forall|i: int| 0 <= i < body.len() implies body[i] != NEWLINE by {
        let opening = id_prefix();
        let digits = dec_digits(id);
        let with_digits = opening + digits;
        let with_msep = with_digits + method_prefix();
        let with_method = with_msep + method;
        let with_psep = with_method + params_prefix();
        let with_params = with_psep + params;
        assert(s == with_params + line_close());
        assert(body[i] == s[i]);
        if i < with_params.len() {
            assert(s[i] == with_params[i]);
            if i < with_psep.len() {
                assert(with_params[i] == with_psep[i]);
                if i < with_method.len() {
                    assert(with_psep[i] == with_method[i]);
                    if i < with_msep.len() {
                        assert(with_method[i] == with_msep[i]);
                        if i < with_digits.len() {
                            assert(with_msep[i] == with_digits[i]);
                            if i < opening.len() {
                                assert(with_digits[i] == opening[i]);
                            } else {
                                assert(with_digits[i] == digits[i - opening.len()]);
                            }
                        } else {
                            assert(with_msep[i] == method_prefix()[i - with_digits.len()]);
                        }
                    } else {
                        assert(with_method[i] == method[i - with_msep.len()]);
                    }
                } else {
                    assert(with_psep[i] == params_prefix()[i - with_method.len()]);
                }
            } else {
                assert(with_params[i] == params[i - with_psep.len()]);
            }
        } else {
            assert(s[i] == line_close()[i - with_params.len()]);
            assert(i - with_params.len() == 0);
        }
    }
    assert(s[s.len() - 1] == line_close()[1]);
}

/// Where the line beginning at `i` ends: the index of its terminating
/// newline, or the stream's length when no full line is buffered yet.
pub open spec fn line_end_from(s: Seq<u8>, i: int) -> int
    decreases s.len() - i,
{
    if i < 0 || i >= s.len() {
        s.len() as int
    } else if s[i] == NEWLINE {
        i
    } else {
        line_end_from(s, i + 1)
    }
}

/// When nothing in `[i, k)` is a newline and `s[k]` is one, the line
/// beginning at `i` ends exactly at `k`.
pub proof fn lemma_line_end_found(s: Seq<u8>, i: int, k: int)
    requires
        0 <= i <= k < s.len(),
        forall|j: int| i <= j < k ==> s[j] != NEWLINE,
        s[k] == NEWLINE,
    ensures
        line_end_from(s, i) == k,
    decreases k - i,
{
    if i < k {
        lemma_line_end_found(s, i + 1, k);
    }
}

/// Blocks (from the embedding's point of view) until one full line is
/// available from `start` on: returns the line's content with the
/// trailing newline stripped, and the index just past that newline.
/// `None` means the buffered stream holds no complete line yet.
#[verifier::loop_isolation(false)]
pub fn read_line(stream: &Vec<u8>, start: usize) -> (r: Option<(Vec<u8>, usize)>)
    requires
        start <= stream@.len(),
    ensures
        match r {
            None => line_end_from(stream@, start as int) == stream@.len(),
            Some(pair) => {
                let e = line_end_from(stream@, start as int);
                &&& e < stream@.len()
                &&& stream@[e] == NEWLINE
                &&& pair.0@ == stream@.subrange(start as int, e)
                &&& pair.1 == e + 1
            },
        },
{
    let n = stream.len();
    let mut i: usize = start;
    while i < n
        invariant
            start <= i <= n,
            line_end_from(stream@, start as int) == line_end_from(stream@, i as int),
        decreases n - i,
    {
        if stream[i] == 10 {
            let mut line: Vec<u8> = Vec::new();
            let mut j: usize = start;
            while j < i
                invariant
                    start <= j <= i,
                    i < n,
                    line@ == stream@.subrange(start as int, j as int),
                decreases i - j,
            {
                line.push(stream[j]);
                proof {
                    assert(line@ =~= stream@.subrange(start as int, j as int + 1));
                }
                j = j + 1;
            }
            return Some((line, i + 1));
        }
        i = i + 1;
    }
    None
}

/// Reads the two handshake responses, strictly first-in first-out:
/// the first line, then the line that begins right after it. Nothing past
/// the second line's newline is consumed.
pub fn read_two_lines(stream: &Vec<u8>, start: usize) -> (r: Option<((Vec<u8>, Vec<u8>), usize)>)
    requires
        start <= stream@.len(),
    ensures
        ({
            let e1 = line_end_from(stream@, start as int);
            match r {
                None => e1 == stream@.len() || line_end_from(stream@, e1 + 1) == stream@.len(),
                Some(two) => {
                    let e2 = line_end_from(stream@, e1 + 1);
                    &&& e1 < stream@.len()
                    &&& e2 < stream@.len()
                    &&& stream@[e1] == NEWLINE
                    &&& stream@[e2] == NEWLINE
                    &&& two.0.0@ == stream@.subrange(start as int, e1)
                    &&& two.0.1@ == stream@.subrange(e1 + 1, e2)
                    &&& two.1 == e2 + 1
                },
            }
        }),
{
    match read_line(stream, start) {
        None => None,
        Some((first, next1)) => {
            match read_line(stream, next1) {
                None => None,
                Some((second, next2)) => Some(((first, second), next2)),
            }
        },
    }
}

/// Handshake pairing law: when the child answers with exactly one line
/// per request, the two responses read after the two fixed requests are
/// those two lines, in the order they were written, and nothing beyond
/// the second complete line is read.
pub proof fn lemma_two_lines_exact(l1: Seq<u8>, l2: Seq<u8>, rest: Seq<u8>)
    requires
        no_nl(l1),
        no_nl(l2),
    ensures
        ({
            let s = l1 + seq![NEWLINE] + l2 + seq![NEWLINE] + rest;
            &&& line_end_from(s, 0) == l1.len()
            &&& s.subrange(0, l1.len() as int) == l1
            &&& line_end_from(s, l1.len() as int + 1) == l1.len() + l2.len() + 1
            &&& s.subrange(l1.len() as int + 1, l1.len() + l2.len() + 1 as int) == l2
        }),
{
    let s = l1 + seq![NEWLINE] + l2 + seq![NEWLINE] + rest;
    let n1 = l1.len() as int;
    let n2 = l2.len() as int;
    assert forall|j: int| 0 <= j < n1 implies s[j] != NEWLINE by {
        assert(s[j] == l1[j]);
    }
    assert(s[n1] == NEWLINE);
    if n1 > 0 {
        lemma_line_end_found(s, 0, n1);
    }
    assert(line_end_from(s, 0) == n1);
    assert(s.subrange(0, n1) =~= l1);
    assert forall|j: int| n1 + 1 <= j < n1 + 1 + n2 implies s[j] != NEWLINE by {
        assert(s[j] == l2[j - (n1 + 1)]);
    }
    assert(s[n1 + 1 + n2] == NEWLINE);
    lemma_line_end_found(s, n1 + 1, n1 + 1 + n2);
    assert(s.subrange(n1 + 1, n1 + n2 + 1) =~= l2);
}

} // verus!
