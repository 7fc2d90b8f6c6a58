//! The wire encoding: every outbound request is one JSON text frame, and
//! every inbound frame is decoded against the response envelope grammar.
//!
//! The grammar is stated as spec functions; the executable encoder and
//! decoder are proved against them, and encoding followed by decoding is
//! proved to give the request back.

use vstd::prelude::*;

use crate::wire::ErrorResponse;
use crate::wire::MarkMessagesReadRequest;
use crate::wire::MessageRequest;
use crate::wire::MessageResponse;
use crate::wire::MessageResponseV;
use crate::wire::MessageRequestV;
use crate::wire::MessagesReadResponse;
use crate::wire::OkResponse;
use crate::wire::OkResponseV;
use crate::wire::WireRequest;
use crate::wire::WireRequestV;
use crate::wire::clone_text;
use crate::wire::push_lit;

verus! {

// ---------------------------------------------------------------------------
// Decimal numerals
// ---------------------------------------------------------------------------

/// The character of one decimal digit.
pub open spec fn digit_char(d: nat) -> char {
    if d == 0 { '0' } else if d == 1 { '1' } else if d == 2 { '2' }
    else if d == 3 { '3' } else if d == 4 { '4' } else if d == 5 { '5' }
    else if d == 6 { '6' } else if d == 7 { '7' } else if d == 8 { '8' }
    else { '9' }
}

/// Whether a character is a decimal digit.
pub open spec fn is_digit(c: char) -> bool {
    c == '0' || c == '1' || c == '2' || c == '3' || c == '4' || c == '5'
        || c == '6' || c == '7' || c == '8' || c == '9'
}

/// The value of one decimal digit character.
pub open spec fn digit_val(c: char) -> nat {
    if c == '0' { 0 } else if c == '1' { 1 } else if c == '2' { 2 }
    else if c == '3' { 3 } else if c == '4' { 4 } else if c == '5' { 5 }
    else if c == '6' { 6 } else if c == '7' { 7 } else if c == '8' { 8 }
    else { 9 }
}

/// The decimal numeral of `n`, most significant digit first.
pub open spec fn dec_digits(n: nat) -> Seq<char>
    decreases n,
{
    if n < 10 {
        seq![digit_char(n)]
    } else {
        dec_digits(n / 10).push(digit_char(n % 10))
    }
}

/// The value of a sequence of digit characters, read as a decimal numeral.
pub open spec fn digits_val(s: Seq<char>) -> nat
    decreases s.len(),
{
    if s.len() == 0 {
        0
    } else {
        digits_val(s.drop_last()) * 10 + digit_val(s.last())
    }
}

/// The numeral of `n` is non-empty, made of digits, and reads back as `n`.
pub proof fn lemma_dec_digits(n: nat)
    ensures
        dec_digits(n).len() >= 1,
        forall|i: int| 0 <= i < dec_digits(n).len() ==> is_digit(#[trigger] dec_digits(n)[i]),
        digits_val(dec_digits(n)) == n,
    decreases n,
{
    if n < 10 {
        assert(dec_digits(n) =~= seq![digit_char(n)]);
        assert(dec_digits(n).drop_last() =~= Seq::<char>::empty());
        assert(dec_digits(n).last() == digit_char(n));
        assert(digit_val(digit_char(n)) == n);
        assert(digits_val(Seq::<char>::empty()) == 0);
    } else {
        lemma_dec_digits(n / 10);
        let d = dec_digits(n / 10);
        assert(dec_digits(n) =~= d.push(digit_char(n % 10)));
        assert(d.push(digit_char(n % 10)).drop_last() =~= d);
        assert(d.push(digit_char(n % 10)).last() == digit_char(n % 10));
        assert(digit_val(digit_char(n % 10)) == n % 10);
        assert(digits_val(dec_digits(n)) == digits_val(d) * 10 + n % 10);
        assert(n / 10 * 10 + n % 10 == n);
        assert forall|i: int| 0 <= i < dec_digits(n).len() implies is_digit(
            #[trigger] dec_digits(n)[i],
        ) by {
            if i < d.len() {
                assert(dec_digits(n)[i] == d[i]);
            } else {
                assert(dec_digits(n)[i] == digit_char(n % 10));
            }
        }
    }
}

/// The length of the maximal digit prefix of `s`.
pub open spec fn digit_run(s: Seq<char>) -> int
    decreases s.len(),
{
    if s.len() > 0 && is_digit(s[0]) {
        1 + digit_run(s.drop_first())
    } else {
        0
    }
}

/// A digit run never exceeds the sequence's length.
pub proof fn lemma_digit_run_bound(s: Seq<char>)
    ensures
        0 <= digit_run(s) <= s.len(),
        forall|i: int| 0 <= i < digit_run(s) ==> is_digit(#[trigger] s[i]),
        digit_run(s) < s.len() ==> !is_digit(s[digit_run(s)]),
    decreases s.len(),
{
    if s.len() > 0 && is_digit(s[0]) {
        lemma_digit_run_bound(s.drop_first());
        assert forall|i: int| 0 <= i < digit_run(s) implies is_digit(#[trigger] s[i]) by {
            if i > 0 {
                assert(s.drop_first()[i - 1] == s[i]);
            }
        }
        if digit_run(s) < s.len() {
            assert(s.drop_first()[digit_run(s) - 1] == s[digit_run(s)]);
        }
    }
}

/// In a digit sequence followed by a non-digit, the digit run is exactly the
/// digit sequence.
pub proof fn lemma_digit_run_of(d: Seq<char>, rest: Seq<char>)
    requires
        forall|i: int| 0 <= i < d.len() ==> is_digit(#[trigger] d[i]),
        rest.len() == 0 || !is_digit(rest[0]),
    ensures
        digit_run(d + rest) == d.len(),
    decreases d.len(),
{
    if d.len() == 0 {
        assert(d + rest =~= rest);
        if rest.len() > 0 {
            assert(!is_digit((d + rest)[0]));
        }
    } else {
        assert((d + rest)[0] == d[0]);
        assert((d + rest).drop_first() =~= d.drop_first() + rest);
        lemma_digit_run_of(d.drop_first(), rest);
    }
}

/// Reading one more digit multiplies the value by ten and adds that digit.
pub proof fn lemma_digits_val_step(s: Seq<char>, m: int)
    requires
        0 <= m < s.len(),
    ensures
        digits_val(s.take(m + 1)) == digits_val(s.take(m)) * 10 + digit_val(s[m]),
{
    assert(s.take(m + 1).drop_last() =~= s.take(m));
    assert(s.take(m + 1).last() == s[m]);
}

/// The value of a digit prefix never shrinks as the prefix grows.
pub proof fn lemma_digits_val_monotone(s: Seq<char>, m: int, k: int)
    requires
        0 <= m <= k <= s.len(),
    ensures
        digits_val(s.take(m)) <= digits_val(s.take(k)),
    decreases k - m,
{
    if m < k {
        lemma_digits_val_step(s, k - 1);
        lemma_digits_val_monotone(s, m, k - 1);
    }
}

/// Parse the maximal digit prefix of `s` as a `u64`: fails when there is no
/// digit or the value does not fit.
pub open spec fn scan_u64(s: Seq<char>) -> Option<(u64, Seq<char>)> {
    let k = digit_run(s);
    if k == 0 {
        None
    } else if digits_val(s.take(k)) > u64::MAX {
        None
    } else {
        Some((digits_val(s.take(k)) as u64, s.skip(k)))
    }
}

/// Scanning the numeral of `n` followed by a non-digit yields `n` back.
pub proof fn lemma_scan_u64_of(n: u64, rest: Seq<char>)
    requires
        rest.len() == 0 || !is_digit(rest[0]),
    ensures
        scan_u64(dec_digits(n as nat) + rest) == Some((n, rest)),
{
    let d = dec_digits(n as nat);
    lemma_dec_digits(n as nat);
    lemma_digit_run_of(d, rest);
    let s = d + rest;
    assert(s.take(d.len() as int) =~= d);
    assert(s.skip(d.len() as int) =~= rest);
}

// ---------------------------------------------------------------------------
// Text escaping
// ---------------------------------------------------------------------------

/// How one text character appears inside a JSON string: quotes and
/// backslashes carry a backslash escape.
pub open spec fn escape_char(c: char) -> Seq<char> {
    if c == '"' {
        seq!['\\', '"']
    } else if c == '\\' {
        seq!['\\', '\\']
    } else {
        seq![c]
    }
}

/// The escaped form of a whole text.
pub open spec fn escape_text(s: Seq<char>) -> Seq<char>
    decreases s.len(),
{
    if s.len() == 0 {
        Seq::<char>::empty()
    } else {
        escape_char(s[0]) + escape_text(s.drop_first())
    }
}

/// Escaping distributes over appending one character at the end.
pub proof fn lemma_escape_snoc(s: Seq<char>, c: char)
    ensures
        escape_text(s.push(c)) == escape_text(s) + escape_char(c),
    decreases s.len(),
{
    if s.len() == 0 {
        assert(s.push(c)[0] == c);
        assert(s.push(c).drop_first() =~= Seq::<char>::empty());
        assert(escape_text(Seq::<char>::empty()) == Seq::<char>::empty());
        assert(escape_text(s.push(c)) == escape_char(c) + Seq::<char>::empty());
        assert(escape_text(s) == Seq::<char>::empty());
        assert(escape_char(c) + Seq::<char>::empty() =~= Seq::<char>::empty() + escape_char(c));
    } else {
        assert(s.push(c)[0] == s[0]);
        assert(s.push(c).drop_first() =~= s.drop_first().push(c));
        lemma_escape_snoc(s.drop_first(), c);
        let a = escape_char(s[0]);
        let b = escape_text(s.drop_first());
        let e = escape_char(c);
        assert(escape_text(s) == a + b);
        assert(escape_text(s.push(c)) == a + (b + e));
        assert(a + (b + e) =~= (a + b) + e);
    }
}

/// Scan a JSON string body up to and over its closing quote, undoing the
/// escapes; yields the text and what follows the closing quote.
pub open spec fn scan_text(s: Seq<char>) -> Option<(Seq<char>, Seq<char>)>
    decreases s.len(),
{
    if s.len() == 0 {
        None
    } else if s[0] == '"' {
        Some((Seq::<char>::empty(), s.drop_first()))
    } else if s[0] == '\\' {
        if s.len() >= 2 && (s[1] == '"' || s[1] == '\\') {
            match scan_text(s.skip(2)) {
                Some(p) => Some((seq![s[1]] + p.0, p.1)),
                None => None,
            }
        } else {
            None
        }
    } else {
        match scan_text(s.drop_first()) {
            Some(p) => Some((seq![s[0]] + p.0, p.1)),
            None => None,
        }
    }
}

/// Scanning an escaped text followed by its closing quote yields the text.
pub proof fn lemma_scan_text_of(t: Seq<char>, rest: Seq<char>)
    ensures
        scan_text(escape_text(t) + seq!['"'] + rest) == Some((t, rest)),
    decreases t.len(),
{
    let s = escape_text(t) + seq!['"'] + rest;
    if t.len() == 0 {
        assert(s[0] == '"');
        assert(s.drop_first() =~= rest);
        assert(scan_text(s) == Some((Seq::<char>::empty(), rest)));
        assert(t =~= Seq::<char>::empty());
    } else {
        let c = t[0];
        let t2 = t.drop_first();
        lemma_scan_text_of(t2, rest);
        let s2 = escape_text(t2) + seq!['"'] + rest;
        assert(escape_text(t) =~= escape_char(c) + escape_text(t2));
        if c == '"' || c == '\\' {
            assert(s[0] == '\\');
            assert(s[1] == c);
            assert(s.skip(2) =~= s2);
            assert(seq![s[1]] + t2 =~= t);
        } else {
            assert(s[0] == c);
            assert(s.drop_first() =~= s2);
            assert(seq![s[0]] + t2 =~= t);
        }
    }
}

// ---------------------------------------------------------------------------
// The frame grammar
// ---------------------------------------------------------------------------

/// Opening of a chat message request frame.
pub open spec fn lit_req_message() -> Seq<char> {
    "{\"Message\":{\"uuid\":"@
}

/// Opening of a read-receipt request frame.
pub open spec fn lit_req_read() -> Seq<char> {
    "{\"MessagesRead\":{\"room\":"@
}

/// Separator between the id and the text of a message payload.
pub open spec fn lit_text_key() -> Seq<char> {
    ",\"text\":\""@
}

/// Whether `s` begins with `p`.
pub open spec fn starts_with(s: Seq<char>, p: Seq<char>) -> bool {
    s.len() >= p.len() && s.take(p.len() as int) == p
}

/// The frame of a request: the JSON serialization of its envelope.
pub open spec fn encode_request_spec(q: WireRequestV) -> Seq<char> {
    match q {
        WireRequestV::Message(m) => lit_req_message() + dec_digits(m.uuid as nat)
            + lit_text_key() + escape_text(m.text) + "\"}}"@,
        WireRequestV::MessagesRead(r) => lit_req_read() + dec_digits(r.room as nat) + "}}"@,
    }
}

/// Decode a request frame; succeeds exactly on frames of the grammar.
pub open spec fn decode_request_spec(s: Seq<char>) -> Option<WireRequestV> {
    if starts_with(s, lit_req_message()) {
        match scan_u64(s.skip(lit_req_message().len() as int)) {
            Some(p) => {
                let u = p.1;
                if starts_with(u, lit_text_key()) {
                    match scan_text(u.skip(lit_text_key().len() as int)) {
                        Some(q) => if q.1 == "}}"@ {
                            Some(WireRequestV::Message(
                                (MessageRequestV { uuid: p.0, text: q.0 }),
                            ))
                        } else {
                            None
                        },
                        None => None,
                    }
                } else {
                    None
                }
            },
            None => None,
        }
    } else if starts_with(s, lit_req_read()) {
        match scan_u64(s.skip(lit_req_read().len() as int)) {
            Some(p) => if p.1 == "}}"@ {
                Some(WireRequestV::MessagesRead((MarkMessagesReadRequest { room: p.0 })))
            } else {
                None
            },
            None => None,
        }
    } else {
        None
    }
}

// ---------------------------------------------------------------------------
// The response grammar
// ---------------------------------------------------------------------------

/// Opening of a delivered-message response frame.
pub open spec fn lit_res_message() -> Seq<char> {
    "{\"Ok\":{\"Message\":{\"uuid\":"@
}

/// Opening of a messages-read acknowledgement frame.
pub open spec fn lit_res_read() -> Seq<char> {
    "{\"Ok\":{\"MessagesRead\":{\"room\":"@
}

/// Opening of a delivery-notification frame.
pub open spec fn lit_res_received() -> Seq<char> {
    "{\"Ok\":{\"MessageReceived\":"@
}

/// Opening of a message-not-found error frame.
pub open spec fn lit_res_not_found() -> Seq<char> {
    "{\"Err\":{\"MessageNotFound\":"@
}

/// Decode a response frame into the success/error envelope; succeeds exactly
/// on frames of the grammar.
pub open spec fn decode_response_spec(s: Seq<char>) -> Option<
    Result<OkResponseV, ErrorResponse>,
> {
    if starts_with(s, lit_res_message()) {
        match scan_u64(s.skip(lit_res_message().len() as int)) {
            Some(p) => {
                let u = p.1;
                if starts_with(u, lit_text_key()) {
                    match scan_text(u.skip(lit_text_key().len() as int)) {
                        Some(q) => if q.1 == "}}}"@ {
                            Some(Ok(OkResponseV::Message(
                                (MessageResponseV { uuid: p.0, text: q.0 }),
                            )))
                        } else {
                            None
                        },
                        None => None,
                    }
                } else {
                    None
                }
            },
            None => None,
        }
    } else if starts_with(s, lit_res_read()) {
        match scan_u64(s.skip(lit_res_read().len() as int)) {
            Some(p) => if p.1 == "}}}"@ {
                Some(Ok(OkResponseV::MessagesRead((MessagesReadResponse { room: p.0 }))))
            } else {
                None
            },
            None => None,
        }
    } else if starts_with(s, lit_res_received()) {
        match scan_u64(s.skip(lit_res_received().len() as int)) {
            Some(p) => if p.1 == "}}"@ {
                Some(Ok(OkResponseV::MessageReceived(p.0)))
            } else {
                None
            },
            None => None,
        }
    } else if s == "{\"Err\":\"WrongFormat\"}"@ {
        Some(Err(ErrorResponse::WrongFormat))
    } else if s == "{\"Err\":\"WrongJsonFormat\"}"@ {
        Some(Err(ErrorResponse::WrongJsonFormat))
    } else if s == "{\"Err\":\"UserNotFound\"}"@ {
        Some(Err(ErrorResponse::UserNotFound))
    } else if s == "{\"Err\":\"Fatal\"}"@ {
        Some(Err(ErrorResponse::Fatal))
    } else if s == "{\"Err\":\"NotMemberOfRoom\"}"@ {
        Some(Err(ErrorResponse::NotMemberOfRoom))
    } else if starts_with(s, lit_res_not_found()) {
        match scan_u64(s.skip(lit_res_not_found().len() as int)) {
            Some(p) => if p.1 == "}}"@ {
                Some(Err(ErrorResponse::MessageNotFound(p.0)))
            } else {
                None
            },
            None => None,
        }
    } else {
        None
    }
}

/// Decoding a request frame gives back the request that was encoded.
pub proof fn lemma_request_round_trip(q: WireRequestV)
    ensures
        decode_request_spec(encode_request_spec(q)) == Some(q),
{
    reveal_strlit("{\"Message\":{\"uuid\":");
    reveal_strlit("{\"MessagesRead\":{\"room\":");
    reveal_strlit(",\"text\":\"");
    reveal_strlit("}}");
    let lm = lit_req_message();
    let lr = lit_req_read();
    let lt = lit_text_key();
    match q {
        WireRequestV::Message(m) => {
            let d = dec_digits(m.uuid as nat);
            let tail = lt + escape_text(m.text) + "\"}}"@;
            let s = encode_request_spec(q);
            lemma_dec_digits(m.uuid as nat);
            assert(s =~= lm + (d + tail));
            assert(s.take(lm.len() as int) =~= lm);
            assert(starts_with(s, lm));
            assert(s.skip(lm.len() as int) =~= d + tail);
            assert(!is_digit(tail[0]));
            lemma_scan_u64_of(m.uuid, tail);
            assert(scan_u64(d + tail) == Some((m.uuid, tail)));
            assert(tail.take(lt.len() as int) =~= lt);
            assert(starts_with(tail, lt));
            reveal_strlit("\"}}");
            assert(tail.skip(lt.len() as int) =~= escape_text(m.text) + seq!['"'] + "}}"@);
            lemma_scan_text_of(m.text, "}}"@);
        },
        WireRequestV::MessagesRead(r) => {
            let d = dec_digits(r.room as nat);
            let s = encode_request_spec(q);
            lemma_dec_digits(r.room as nat);
            // The two openings differ, so the message branch is not taken.
            assert(lm[9] == '"');
            assert(lr[9] == 's');
            assert(s =~= lr + (d + "}}"@));
            if starts_with(s, lm) {
                assert(s.take(lm.len() as int)[9] == s[9]);
                assert(s[9] == lr[9]);
                assert(false);
            }
            assert(s.take(lr.len() as int) =~= lr);
            assert(starts_with(s, lr));
            assert(s.skip(lr.len() as int) =~= d + "}}"@);
            assert(!is_digit("}}"@[0]));
            lemma_scan_u64_of(r.room, "}}"@);
        },
    }
}

// ---------------------------------------------------------------------------
// The executable encoder
// ---------------------------------------------------------------------------

/// The character of one decimal digit.
fn digit_char_x(d: u64) -> (c: char)
    requires
        d < 10,
    ensures
        c == digit_char(d as nat),
{
    if d == 0 { '0' } else if d == 1 { '1' } else if d == 2 { '2' }
    else if d == 3 { '3' } else if d == 4 { '4' } else if d == 5 { '5' }
    else if d == 6 { '6' } else if d == 7 { '7' } else if d == 8 { '8' }
    else { '9' }
}

/// Append the decimal numeral of `n`.
pub(crate) fn push_dec(out: &mut Vec<char>, n: u64)
    ensures
        final(out)@ == old(out)@ + dec_digits(n as nat),
    decreases n,
{
    if n < 10 {
        let c = digit_char_x(n);
        out.push(c);
        proof {
            assert(old(out)@ + dec_digits(n as nat) =~= old(out)@.push(c));
        }
    } else {
        push_dec(out, n / 10);
        let c = digit_char_x(n % 10);
        out.push(c);
        proof {
            assert(old(out)@ + dec_digits((n / 10) as nat) + seq![c] =~= old(out)@ + dec_digits(
                n as nat,
            ));
        }
    }
}

/// Append the escaped form of a text.
fn push_escaped(out: &mut Vec<char>, text: &Vec<char>)
    ensures
        final(out)@ == old(out)@ + escape_text(text@),
{
    let n: usize = text.len();
    let mut j: usize = 0;
    while j < n
        invariant
            j <= n,
            n == text@.len(),
            out@ == old(out)@ + escape_text(text@.take(j as int)),
        decreases n - j,
    {
        let c = text[j];
        if c == '"' {
            out.push('\\');
            out.push('"');
        } else if c == '\\' {
            out.push('\\');
            out.push('\\');
        } else {
            out.push(c);
        }
        proof {
            lemma_escape_snoc(text@.take(j as int), text@[j as int]);
            assert(text@.take(j + 1 as int) =~= text@.take(j as int).push(text@[j as int]));
            if c == '"' {
                assert(escape_char(c) =~= seq!['\\', '"']);
            } else if c == '\\' {
                assert(escape_char(c) =~= seq!['\\', '\\']);
            } else {
                assert(escape_char(c) =~= seq![c]);
            }
            assert(out@ =~= old(out)@ + escape_text(text@.take(j + 1 as int)));
        }
        j += 1;
    }
    proof {
        assert(text@.take(n as int) =~= text@);
    }
}

/// Encode a request as its wire frame.
pub fn encode_request(q: &WireRequest) -> (r: Vec<char>)
    ensures
        r@ == encode_request_spec(q@),
{
    let mut out: Vec<char> = Vec::new();
    match q {
        WireRequest::Message(m) => {
            push_lit(&mut out, "{\"Message\":{\"uuid\":");
            push_dec(&mut out, m.uuid);
            push_lit(&mut out, ",\"text\":\"");
            push_escaped(&mut out, &m.text);
            push_lit(&mut out, "\"}}");
            proof {
                assert(out@ =~= encode_request_spec(q@));
            }
        },
        WireRequest::MessagesRead(rr) => {
            push_lit(&mut out, "{\"MessagesRead\":{\"room\":");
            push_dec(&mut out, rr.room);
            push_lit(&mut out, "}}");
            proof {
                assert(out@ =~= encode_request_spec(q@));
            }
        },
    }
    out
}

// ---------------------------------------------------------------------------
// The executable decoder
// ---------------------------------------------------------------------------

/// Whether a character is a decimal digit.
fn is_digit_x(c: char) -> (r: bool)
    ensures
        r == is_digit(c),
{
    c == '0' || c == '1' || c == '2' || c == '3' || c == '4' || c == '5' || c == '6' || c == '7'
        || c == '8' || c == '9'
}

/// The value of one decimal digit character.
fn digit_val_x(c: char) -> (r: u64)
    requires
        is_digit(c),
    ensures
        r == digit_val(c),
{
    if c == '0' { 0 } else if c == '1' { 1 } else if c == '2' { 2 }
    else if c == '3' { 3 } else if c == '4' { 4 } else if c == '5' { 5 }
    else if c == '6' { 6 } else if c == '7' { 7 } else if c == '8' { 8 }
    else { 9 }
}

/// Whether the frame carries the literal at position `i`.
fn match_lit(s: &Vec<char>, i: usize, lit: &str) -> (r: bool)
    requires
        i <= s@.len(),
    ensures
        r == starts_with(s@.skip(i as int), lit@),
{
    let n: usize = lit.unicode_len();
    let sn: usize = s.len();
    if sn - i < n {
        return false;
    }
    let mut j: usize = 0;
    while j < n
        invariant
            j <= n,
            i + n <= sn,
            sn == s@.len(),
            n == lit@.len(),
            forall|m: int| 0 <= m < j ==> s@[i + m] == lit@[m],
        decreases n - j,
    {
        if s[i + j] != lit.get_char(j) {
            proof {
                if starts_with(s@.skip(i as int), lit@) {
                    assert(s@.skip(i as int).take(n as int)[j as int] == s@[i + j]);
                }
            }
            return false;
        }
        j += 1;
    }
    proof {
        assert(s@.skip(i as int).take(n as int) =~= lit@);
    }
    true
}

/// Whether the rest of the frame from position `i` is exactly the literal.
fn tail_eq(s: &Vec<char>, i: usize, lit: &str) -> (r: bool)
    requires
        i <= s@.len(),
    ensures
        r == (s@.skip(i as int) == lit@),
{
    let n: usize = lit.unicode_len();
    if s.len() - i != n {
        proof {
            assert(s@.skip(i as int).len() == s@.len() - i);
        }
        return false;
    }
    let r = match_lit(s, i, lit);
    proof {
        if r {
            assert(s@.skip(i as int).take(n as int) =~= s@.skip(i as int));
        } else {
            if s@.skip(i as int) == lit@ {
                assert(s@.skip(i as int).take(n as int) =~= lit@);
            }
        }
    }
    r
}

/// A digit prefix of length `m` keeps the digit run at `m` at least.
proof fn lemma_digit_run_lb(u: Seq<char>, m: int)
    requires
        0 <= m <= u.len(),
        forall|i: int| 0 <= i < m ==> is_digit(#[trigger] u[i]),
    ensures
        digit_run(u) >= m,
    decreases m,
{
    lemma_digit_run_bound(u);
    if m > 0 {
        assert(is_digit(u[0]));
        assert forall|i: int| 0 <= i < m - 1 implies is_digit(#[trigger] u.drop_first()[i]) by {
            assert(u.drop_first()[i] == u[i + 1]);
        }
        lemma_digit_run_lb(u.drop_first(), m - 1);
    }
}

/// Scan the decimal number at position `i` of the frame.
fn scan_u64_x(s: &Vec<char>, i: usize) -> (r: Option<(u64, usize)>)
    requires
        i <= s@.len(),
    ensures
        match r {
            Some(p) => i <= p.1 <= s@.len() && scan_u64(s@.skip(i as int)) == Some(
                (p.0, s@.skip(p.1 as int)),
            ),
            None => scan_u64(s@.skip(i as int)) is None,
        },
{
    let ghost u = s@.skip(i as int);
    proof {
        assert(forall|m: int| 0 <= m < u.len() ==> u[m] == s@[i + m]);
        lemma_digit_run_bound(u);
    }
    if i == s.len() || !is_digit_x(s[i]) {
        proof {
            if u.len() > 0 {
                assert(u[0] == s@[i as int]);
            }
            assert(digit_run(u) == 0);
        }
        return None;
    }
    let mut j: usize = i;
    let mut acc: u64 = 0;
    while j < s.len() && is_digit_x(s[j])
        invariant
            i <= j <= s@.len(),
            u == s@.skip(i as int),
            forall|m: int| 0 <= m < u.len() ==> u[m] == s@[i + m],
            forall|m: int| 0 <= m < j - i ==> is_digit(#[trigger] u[m]),
            acc == digits_val(u.take(j - i)),
        decreases s@.len() - j,
    {
        let c = s[j];
        let d = digit_val_x(c);
        proof {
            lemma_digits_val_step(u, j - i);
            lemma_digit_run_lb(u, j - i + 1);
            lemma_digit_run_bound(u);
            if acc > u64::MAX / 10 || (acc == u64::MAX / 10 && d > 5) {
                lemma_digits_val_monotone(u, j - i + 1, digit_run(u));
            }
        }
        if acc > u64::MAX / 10 || (acc == u64::MAX / 10 && d > 5) {
            return None;
        }
        acc = acc * 10 + d;
        j += 1;
    }
    proof {
        lemma_digit_run_lb(u, j - i);
        lemma_digit_run_bound(u);
        if digit_run(u) > j - i {
            assert(is_digit(u[j - i]));
            assert(u[j - i] == s@[j as int]);
        }
        assert(digit_run(u) == j - i);
        assert(u.skip(j - i) =~= s@.skip(j as int));
    }
    Some((acc, j))
}

/// Prefix a scanned text with what was already read.
pub open spec fn scan_text_pre(acc: Seq<char>, r: Option<(Seq<char>, Seq<char>)>) -> Option<
    (Seq<char>, Seq<char>),
> {
    match r {
        Some(p) => Some((acc + p.0, p.1)),
        None => None,
    }
}

/// Prefixing composes: reading `a` then `b` before the scan is reading
/// `a + b` before it.
proof fn lemma_scan_text_pre_pre(a: Seq<char>, b: Seq<char>, r: Option<(Seq<char>, Seq<char>)>)
    ensures
        scan_text_pre(a, scan_text_pre(b, r)) == scan_text_pre(a + b, r),
{
    match r {
        Some(p) => {
            assert(a + (b + p.0) =~= (a + b) + p.0);
        },
        None => {},
    }
}

/// Scan the JSON string body at position `i` of the frame, up to and over
/// its closing quote.
fn scan_text_x(s: &Vec<char>, i: usize) -> (r: Option<(Vec<char>, usize)>)
    requires
        i <= s@.len(),
    ensures
        match r {
            Some(p) => i <= p.1 <= s@.len() && scan_text(s@.skip(i as int)) == Some(
                (p.0@, s@.skip(p.1 as int)),
            ),
            None => scan_text(s@.skip(i as int)) is None,
        },
{
    let mut j: usize = i;
    let mut acc: Vec<char> = Vec::new();
    loop
        invariant
            i <= j <= s@.len(),
            scan_text(s@.skip(i as int)) == scan_text_pre(acc@, scan_text(s@.skip(j as int))),
        decreases s@.len() - j,
    {
        let ghost v = s@.skip(j as int);
        proof {
            assert(forall|m: int| 0 <= m < v.len() ==> v[m] == s@[j + m]);
        }
        if j == s.len() {
            return None;
        }
        let c = s[j];
        if c == '"' {
            proof {
                assert(v[0] == '"');
                assert(v.drop_first() =~= s@.skip(j + 1 as int));
                assert(scan_text(v) == Some((Seq::<char>::empty(), s@.skip(j + 1 as int))));
                assert(acc@ + Seq::<char>::empty() =~= acc@);
            }
            return Some((acc, j + 1));
        } else if c == '\\' {
            if j + 1 < s.len() {
                let c2 = s[j + 1];
                if c2 == '"' || c2 == '\\' {
                    proof {
                        assert(v[0] == '\\');
                        assert(v[1] == c2);
                        assert(v.skip(2) =~= s@.skip(j + 2 as int));
                        assert(scan_text(v) == scan_text_pre(
                            seq![c2],
                            scan_text(s@.skip(j + 2 as int)),
                        ));
                        lemma_scan_text_pre_pre(acc@, seq![c2], scan_text(s@.skip(j + 2 as int)));
                        assert(acc@.push(c2) =~= acc@ + seq![c2]);
                    }
                    acc.push(c2);
                    j += 2;
                } else {
                    proof {
                        assert(v[0] == '\\');
                        assert(scan_text(v) is None);
                    }
                    return None;
                }
            } else {
                proof {
                    assert(v[0] == '\\');
                    assert(v.len() == 1);
                    assert(scan_text(v) is None);
                }
                return None;
            }
        } else {
            proof {
                assert(v[0] == c);
                assert(v.drop_first() =~= s@.skip(j + 1 as int));
                assert(scan_text(v) == scan_text_pre(seq![c], scan_text(s@.skip(j + 1 as int))));
                lemma_scan_text_pre_pre(acc@, seq![c], scan_text(s@.skip(j + 1 as int)));
                assert(acc@.push(c) =~= acc@ + seq![c]);
            }
            acc.push(c);
            j += 1;
        }
    }
}

/// Decode a request frame.
pub fn decode_request(s: &Vec<char>) -> (r: Option<WireRequest>)
    ensures
        match r {
            Some(q) => decode_request_spec(s@) == Some(q@),
            None => decode_request_spec(s@) is None,
        },
{
    proof {
        assert(s@.skip(0) =~= s@);
    }
    let lm = "{\"Message\":{\"uuid\":";
    let lr = "{\"MessagesRead\":{\"room\":";
    let lt = ",\"text\":\"";
    if match_lit(s, 0, lm) {
        let i1: usize = lm.unicode_len();
        proof {
            assert(s@.skip(i1 as int) == s@.skip(lit_req_message().len() as int));
        }
        match scan_u64_x(s, i1) {
            Some((n, j)) => {
                if match_lit(s, j, lt) {
                    let ltn: usize = lt.unicode_len();
                    let sn: usize = s.len();
                    proof {
                        assert(s@.skip(j as int).len() >= lit_text_key().len());
                        assert(j + ltn <= sn);
                    }
                    let j2: usize = j + ltn;
                    proof {
                        assert(s@.skip(j as int).skip(lit_text_key().len() as int) =~= s@.skip(
                            j2 as int,
                        ));
                    }
                    match scan_text_x(s, j2) {
                        Some((t, j3)) => {
                            if tail_eq(s, j3, "}}") {
                                Some(WireRequest::Message((MessageRequest { uuid: n, text: t })))
                            } else {
                                None
                            }
                        },
                        None => None,
                    }
                } else {
                    None
                }
            },
            None => None,
        }
    } else if match_lit(s, 0, lr) {
        let i1: usize = lr.unicode_len();
        proof {
            assert(s@.skip(i1 as int) == s@.skip(lit_req_read().len() as int));
        }
        match scan_u64_x(s, i1) {
            Some((n, j)) => {
                if tail_eq(s, j, "}}") {
                    Some(WireRequest::MessagesRead((MarkMessagesReadRequest { room: n })))
                } else {
                    None
                }
            },
            None => None,
        }
    } else {
        None
    }
}

/// Decode a response frame into the success/error envelope.
pub fn decode_response(s: &Vec<char>) -> (r: Option<Result<OkResponse, ErrorResponse>>)
    ensures
        match r {
            Some(Ok(ok)) => decode_response_spec(s@) == Some(Ok::<OkResponseV, ErrorResponse>(ok@)),
            Some(Err(e)) => decode_response_spec(s@) == Some(
                Err::<OkResponseV, ErrorResponse>(e),
            ),
            None => decode_response_spec(s@) is None,
        },
{
    proof {
        assert(s@.skip(0) =~= s@);
    }
    let rm = "{\"Ok\":{\"Message\":{\"uuid\":";
    let rr = "{\"Ok\":{\"MessagesRead\":{\"room\":";
    let rc = "{\"Ok\":{\"MessageReceived\":";
    let rn = "{\"Err\":{\"MessageNotFound\":";
    let lt = ",\"text\":\"";
    if match_lit(s, 0, rm) {
        let i1: usize = rm.unicode_len();
        proof {
            assert(s@.skip(i1 as int) == s@.skip(lit_res_message().len() as int));
        }
        match scan_u64_x(s, i1) {
            Some((n, j)) => {
                if match_lit(s, j, lt) {
                    let ltn: usize = lt.unicode_len();
                    let sn: usize = s.len();
                    proof {
                        assert(s@.skip(j as int).len() >= lit_text_key().len());
                        assert(j + ltn <= sn);
                    }
                    let j2: usize = j + ltn;
                    proof {
                        assert(s@.skip(j as int).skip(lit_text_key().len() as int) =~= s@.skip(
                            j2 as int,
                        ));
                    }
                    match scan_text_x(s, j2) {
                        Some((t, j3)) => {
                            if tail_eq(s, j3, "}}}") {
                                Some(Ok(OkResponse::Message((MessageResponse {
                                    uuid: n,
                                    text: t,
                                }))))
                            } else {
                                None
                            }
                        },
                        None => None,
                    }
                } else {
                    None
                }
            },
            None => None,
        }
    } else if match_lit(s, 0, rr) {
        let i1: usize = rr.unicode_len();
        proof {
            assert(s@.skip(i1 as int) == s@.skip(lit_res_read().len() as int));
        }
        match scan_u64_x(s, i1) {
            Some((n, j)) => {
                if tail_eq(s, j, "}}}") {
                    Some(Ok(OkResponse::MessagesRead((MessagesReadResponse { room: n }))))
                } else {
                    None
                }
            },
            None => None,
        }
    } else if match_lit(s, 0, rc) {
        let i1: usize = rc.unicode_len();
        proof {
            assert(s@.skip(i1 as int) == s@.skip(lit_res_received().len() as int));
        }
        match scan_u64_x(s, i1) {
            Some((n, j)) => {
                if tail_eq(s, j, "}}") {
                    Some(Ok(OkResponse::MessageReceived(n)))
                } else {
                    None
                }
            },
            None => None,
        }
    } else if tail_eq(s, 0, "{\"Err\":\"WrongFormat\"}") {
        Some(Err(ErrorResponse::WrongFormat))
    } else if tail_eq(s, 0, "{\"Err\":\"WrongJsonFormat\"}") {
        Some(Err(ErrorResponse::WrongJsonFormat))
    } else if tail_eq(s, 0, "{\"Err\":\"UserNotFound\"}") {
        Some(Err(ErrorResponse::UserNotFound))
    } else if tail_eq(s, 0, "{\"Err\":\"Fatal\"}") {
        Some(Err(ErrorResponse::Fatal))
    } else if tail_eq(s, 0, "{\"Err\":\"NotMemberOfRoom\"}") {
        Some(Err(ErrorResponse::NotMemberOfRoom))
    } else if match_lit(s, 0, rn) {
        let i1: usize = rn.unicode_len();
        proof {
            assert(s@.skip(i1 as int) == s@.skip(lit_res_not_found().len() as int));
        }
        match scan_u64_x(s, i1) {
            Some((n, j)) => {
                if tail_eq(s, j, "}}") {
                    Some(Err(ErrorResponse::MessageNotFound(n)))
                } else {
                    None
                }
            },
            None => None,
        }
    } else {
        None
    }
}

/// Encoding a chat message and decoding the frame yields the message again,
/// wrapped in the message variant of the envelope.
pub fn round_trip_message(m: &MessageRequest) -> (r: Option<WireRequest>)
    ensures
        r matches Some(q) && q@ == WireRequestV::Message(m@),
{
    let frame = encode_request(&WireRequest::Message((MessageRequest {
        uuid: m.uuid,
        text: clone_text(&m.text),
    })));
    proof {
        lemma_request_round_trip(WireRequestV::Message(m@));
    }
    decode_request(&frame)
}

} // verus!

