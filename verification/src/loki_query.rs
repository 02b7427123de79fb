//! Reading a Loki stream back: the query that asks Loki for a stream and the
//! decoding of its answer into timestamps and lines.

use vstd::prelude::*;
use vstd::string::{StrSliceExecFns, StringExecFns};

verus! {

/// The address that asks a Loki server on `localhost:3100` for every entry of
/// the stream labelled `test_name = <stream>`, oldest first.
pub open spec fn spec_query_url(stream: Seq<char>) -> Seq<char> {
    "http://localhost:3100/loki/api/v1/query_range?query=%7Btest_name%3D\""@ + stream
        + "\"%7D&direction=forward"@
}

/// The query address is a fixed prefix of 68 characters, then the stream
/// written as it is, then a fixed suffix of 22 characters; so two different
/// streams never share an address.
pub proof fn lemma_query_url_holds_stream(stream: Seq<char>)
    ensures
        spec_query_url(stream).len() == 68 + stream.len() + 22,
        spec_query_url(stream).subrange(0, 68)
            == "http://localhost:3100/loki/api/v1/query_range?query=%7Btest_name%3D\""@,
        spec_query_url(stream).subrange(68, 68 + stream.len() as int) == stream,
        spec_query_url(stream).subrange(68 + stream.len() as int, spec_query_url(stream).len() as int)
            == "\"%7D&direction=forward"@,
        forall|other: Seq<char>| spec_query_url(other) == spec_query_url(stream) ==> other == stream,
{
    reveal_strlit("http://localhost:3100/loki/api/v1/query_range?query=%7Btest_name%3D\"");
    reveal_strlit("\"%7D&direction=forward");
    let prefix = "http://localhost:3100/loki/api/v1/query_range?query=%7Btest_name%3D\""@;
    let suffix = "\"%7D&direction=forward"@;
    assert(spec_query_url(stream).subrange(0, 68) =~= prefix);
    assert(spec_query_url(stream).subrange(68, 68 + stream.len() as int) =~= stream);
    assert(spec_query_url(stream).subrange(68 + stream.len() as int, spec_query_url(stream).len() as int)
        =~= suffix);
    assert forall|other: Seq<char>| spec_query_url(other) == spec_query_url(stream) implies other
        == stream by {
        assert(spec_query_url(other).len() == 68 + other.len() + 22);
        assert(spec_query_url(other).subrange(68, 68 + other.len() as int) =~= other);
        assert(other =~= stream);
    }
}

/// Builds the query address for the stream labelled `stream`.
pub fn query_url(stream: &str) -> (res: String)
    ensures
        res@ == spec_query_url(stream@),
        res@.len() == 68 + stream@.len() + 22,
        res@.subrange(0, 68)
            == "http://localhost:3100/loki/api/v1/query_range?query=%7Btest_name%3D\""@,
        res@.subrange(68, 68 + stream@.len() as int) == stream@,
        res@.subrange(68 + stream@.len() as int, res@.len() as int) == "\"%7D&direction=forward"@,
{
    proof {
        lemma_query_url_holds_stream(stream@);
    }
    let mut res = String::from_str("http://localhost:3100/loki/api/v1/query_range?query=%7Btest_name%3D\"");
    res.append(stream);
    res.append("\"%7D&direction=forward");
    res
}

/// A decimal digit.
pub open spec fn is_digit(c: char) -> bool {
    '0' <= c && c <= '9'
}

/// The value of a decimal digit.
pub open spec fn digit_value(c: char) -> int {
    (c as int) - ('0' as int)
}

/// Every character of `s` is a decimal digit.
pub open spec fn all_digits(s: Seq<char>) -> bool {
    forall|i: int| 0 <= i < s.len() ==> #[trigger] is_digit(s[i])
}

/// The number that the digits `s` write in base ten.
pub open spec fn decimal_value(s: Seq<char>) -> int
    decreases s.len(),
{
    if s.len() == 0 {
        0
    } else {
        decimal_value(s.drop_last()) * 10 + digit_value(s.last())
    }
}

/// How many characters of `s` a leading sign takes: one for `+` or `-`, else none.
pub open spec fn sign_len(s: Seq<char>) -> int {
    if s.len() > 0 && (s[0] == '-' || s[0] == '+') {
        1
    } else {
        0
    }
}

/// The `i64` that the text `s` writes: an optional `+` or `-`, then at least one
/// decimal digit and nothing else, with a value in the range of `i64`.
pub open spec fn spec_parse_i64(s: Seq<char>) -> Option<i64> {
    let digits = s.subrange(sign_len(s), s.len() as int);
    let negative = s.len() > 0 && s[0] == '-';
    if digits.len() == 0 || !all_digits(digits) {
        None
    } else if negative {
        if decimal_value(digits) <= 0x8000_0000_0000_0000 {
            Some((-decimal_value(digits)) as i64)
        } else {
            None
        }
    } else if decimal_value(digits) <= 0x7fff_ffff_ffff_ffff {
        Some(decimal_value(digits) as i64)
    } else {
        None
    }
}

/// Digits never write a negative number, and dropping digits from the end
/// never makes the number larger.
proof fn lemma_decimal_prefix_bound(s: Seq<char>, k: int)
    requires
        all_digits(s),
        0 <= k <= s.len(),
    ensures
        0 <= decimal_value(s.subrange(0, k)) <= decimal_value(s),
    decreases s.len() - k,
{
    lemma_decimal_nonnegative(s);
    if k < s.len() {
        lemma_decimal_prefix_bound(s, k + 1);
        let p = s.subrange(0, k + 1);
        assert(p.drop_last() =~= s.subrange(0, k));
        assert(all_digits(p));
        lemma_decimal_nonnegative(p.drop_last());
        assert(is_digit(p.last()));
    } else {
        assert(s.subrange(0, k) =~= s);
    }
}

proof fn lemma_decimal_nonnegative(s: Seq<char>)
    requires
        all_digits(s),
    ensures
        decimal_value(s) >= 0,
    decreases s.len(),
{
    if s.len() > 0 {
        assert(all_digits(s.drop_last()));
        lemma_decimal_nonnegative(s.drop_last());
        assert(is_digit(s[s.len() - 1]));
    }
}

/// Reads a decimal `i64` as `str::parse::<i64>` does.
pub fn parse_i64(s: &str) -> (res: Option<i64>)
    ensures
        res == spec_parse_i64(s@),
{
    let len = s.unicode_len();
    if len == 0 {
        return None;
    }
    let first = s.get_char(0);
    let negative = first == '-';
    let start: usize = if first == '-' || first == '+' {
        1
    } else {
        0
    };
    let ghost digits = s@.subrange(start as int, len as int);
    assert(start as int == sign_len(s@));
    if start == len {
        return None;
    }
    let mut magnitude: u64 = 0;
    let mut i: usize = start;
    assert(s@.subrange(start as int, start as int) =~= Seq::<char>::empty());
    while i < len
        invariant
            start <= i <= len,
            start < len,
            start as int == sign_len(s@),
            len == s@.len(),
            digits == s@.subrange(start as int, len as int),
            forall|k: int| start <= k < i ==> #[trigger] is_digit(s@[k]),
            magnitude as int == decimal_value(s@.subrange(start as int, i as int)),
        decreases len - i,
    {
        let c = s.get_char(i);
        let ghost prefix = s@.subrange(start as int, i as int + 1);
        assert(prefix.drop_last() =~= s@.subrange(start as int, i as int));
        assert(prefix.last() == c);
        if !('0' <= c && c <= '9') {
            assert(digits[i - start] == c);
            assert(!is_digit(digits[i - start]));
            assert(!all_digits(digits));
            return None;
        }
        let d: u64 = ((c as u32) - ('0' as u32)) as u64;
        assert(d as int == digit_value(c));
        let next = match magnitude.checked_mul(10) {
            Some(m) => m.checked_add(d),
            None => None,
        };
        match next {
            Some(v) => {
                magnitude = v;
            },
            None => {
                proof {
                    assert(decimal_value(prefix) == magnitude * 10 + d);
                    assert(decimal_value(prefix) > 0xffff_ffff_ffff_ffff);
                    if all_digits(digits) {
                        assert(prefix =~= digits.subrange(0, i - start + 1));
                        lemma_decimal_prefix_bound(digits, i - start + 1);
                        assert(decimal_value(digits) > 0xffff_ffff_ffff_ffff);
                    }
                }
                return None;
            },
        }
        i = i + 1;
    }
    assert(s@.subrange(start as int, i as int) =~= digits);
    assert(all_digits(digits)) by {
        assert forall|k: int| 0 <= k < digits.len() implies #[trigger] is_digit(digits[k]) by {
            assert(digits[k] == s@[k + start]);
        }
    }
    if negative {
        if magnitude < 0x8000_0000_0000_0000 {
            Some(-(magnitude as i64))
        } else if magnitude == 0x8000_0000_0000_0000 {
            Some(i64::MIN)
        } else {
            None
        }
    } else if magnitude <= 0x7fff_ffff_ffff_ffff {
        Some(magnitude as i64)
    } else {
        None
    }
}

/// One entry of a Loki stream: its timestamp in nanoseconds, written in
/// decimal, and its line.
#[derive(Clone, Debug)]
pub struct LokiEntry {
    pub timestamp: String,
    pub line: String,
}

/// The entries of one stream that a query matched.
#[derive(Clone, Debug)]
pub struct LokiStream {
    pub values: Vec<LokiEntry>,
}

/// The streams that a Loki range query matched.
#[derive(Clone, Debug)]
pub struct LokiQueryResponse {
    pub result: Vec<LokiStream>,
}

/// The timestamps and lines of the first stream of a query's answer, in the
/// order Loki gave them. There are none when the query matched no stream or
/// when a timestamp is not a decimal `i64`.
pub fn decode_query_response(response: &LokiQueryResponse) -> (res: Option<(Vec<i64>, Vec<String>)>)
    ensures
        response.result@.len() == 0 ==> res is None,
        response.result@.len() > 0 ==> ({
            let values = response.result@[0].values@;
            &&& res is Some <==> forall|i: int|
                0 <= i < values.len() ==> #[trigger] spec_parse_i64(values[i].timestamp@) is Some
            &&& res matches Some(r) ==> {
                &&& r.0@.len() == values.len()
                &&& r.1@.len() == values.len()
                &&& forall|i: int|
                    0 <= i < values.len() ==> Some(#[trigger] r.0@[i]) == spec_parse_i64(
                        values[i].timestamp@,
                    ) && r.1@[i]@ == values[i].line@
            }
        }),
{
    if response.result.len() == 0 {
        return None;
    }
    let values = &response.result[0].values;
    let mut timestamps: Vec<i64> = Vec::new();
    let mut lines: Vec<String> = Vec::new();
    let mut i: usize = 0;
    while i < values.len()
        invariant
            values@ == response.result@[0].values@,
            0 <= i <= values@.len(),
            timestamps@.len() == i,
            lines@.len() == i,
            forall|k: int|
                0 <= k < i ==> Some(#[trigger] timestamps@[k]) == spec_parse_i64(values@[k].timestamp@)
                    && lines@[k]@ == values@[k].line@,
        decreases values@.len() - i,
    {
        let entry = &values[i];
        match parse_i64(entry.timestamp.as_str()) {
            Some(t) => {
                timestamps.push(t);
                lines.push(entry.line.clone());
            },
            None => {
                assert(spec_parse_i64(values@[i as int].timestamp@) is None);
                return None;
            },
        }
        i = i + 1;
    }
    assert forall|k: int| 0 <= k < values@.len() implies #[trigger] spec_parse_i64(
        values@[k].timestamp@,
    ) is Some by {
        assert(Some(timestamps@[k]) == spec_parse_i64(values@[k].timestamp@));
    }
    Some((timestamps, lines))
}

} // verus!
