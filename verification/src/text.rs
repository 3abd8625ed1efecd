//! Small string utilities shared by the decoder, the configuration store and
//! the event-log projector: equality of string slices, building strings one
//! character at a time, and decimal rendering of integers.

use vstd::prelude::*;
use vstd::string::StringSliceAdditionalSpecFns;

verus! {

broadcast use vstd::string::group_string_axioms;

/// Compares two byte slices element by element.
pub fn bytes_eq(a: &[u8], b: &[u8]) -> (r: bool)
    ensures
        r == (a@ == b@),
{
    if a.len() != b.len() {
        proof {
            assert(a@.len() != b@.len());
        }
        return false;
    }
    let n = a.len();
    let mut i: usize = 0;
    while i < n
        invariant
            n == a@.len() == b@.len(),
            i <= n,
            forall|j: int| 0 <= j < i ==> a@[j] == b@[j],
        decreases n - i,
    {
        if a[i] != b[i] {
            return false;
        }
        i += 1;
    }
    proof {
        assert(a@ =~= b@);
    }
    true
}

/// Compares two string slices; equality of their UTF-8 encodings implies
/// equality of the character sequences.
pub fn str_eq(a: &str, b: &str) -> (r: bool)
    ensures
        r == (a@ == b@),
{
    let r = bytes_eq(a.as_bytes(), b.as_bytes());
    proof {
        broadcast use vstd::utf8::encode_utf8_decode_utf8;

        if a.spec_bytes() == b.spec_bytes() {
            assert(vstd::utf8::decode_utf8(vstd::utf8::encode_utf8(a@)) == vstd::utf8::decode_utf8(
                vstd::utf8::encode_utf8(b@),
            ));
        }
    }
    r
}

/// Relies on `String::push`: appends one character at the end.
#[verifier::external_body]
pub(crate) fn string_push(s: &mut String, c: char)
    ensures
        final(s)@ == old(s)@ + seq![c],
{
    s.push(c);
}

/// The character for one decimal digit.
pub open spec fn digit_char(d: nat) -> char
    recommends
        d < 10,
{
    seq!['0', '1', '2', '3', '4', '5', '6', '7', '8', '9'][d as int]
}

/// The usual decimal rendering of a natural number, without a sign and
/// without leading zeros (a single `0` for zero).
pub open spec fn dec_str(n: nat) -> Seq<char>
    decreases n,
{
    if n < 10 {
        seq![digit_char(n)]
    } else {
        dec_str(n / 10) + seq![digit_char(n % 10)]
    }
}

/// The character for one decimal digit.
fn digit_of(d: u32) -> (c: char)
    requires
        d < 10,
    ensures
        c == digit_char(d as nat),
{
    match d {
        0 => '0',
        1 => '1',
        2 => '2',
        3 => '3',
        4 => '4',
        5 => '5',
        6 => '6',
        7 => '7',
        8 => '8',
        _ => '9',
    }
}

/// Renders a number in decimal.
pub fn u32_to_string(n: u32) -> (r: String)
    ensures
        r@ == dec_str(n as nat),
    decreases n,
{
    if n < 10 {
        let mut s = String::new();
        string_push(&mut s, digit_of(n));
        proof {
            assert(s@ =~= dec_str(n as nat));
        }
        s
    } else {
        let mut s = u32_to_string(n / 10);
        string_push(&mut s, digit_of(n % 10));
        s
    }
}

/// Renders a number in decimal.
pub fn usize_to_string(n: usize) -> (r: String)
    ensures
        r@ == dec_str(n as nat),
    decreases n,
{
    if n < 10 {
        let mut s = String::new();
        string_push(&mut s, digit_of((n % 10) as u32));
        proof {
            assert(s@ =~= dec_str(n as nat));
        }
        s
    } else {
        let mut s = usize_to_string(n / 10);
        string_push(&mut s, digit_of((n % 10) as u32));
        s
    }
}

/// The elements of a list joined with `", "` between neighbours.
pub open spec fn join_comma_spec(parts: Seq<Seq<char>>) -> Seq<char>
    decreases parts.len(),
{
    if parts.len() == 0 {
        Seq::empty()
    } else if parts.len() == 1 {
        parts[0]
    } else {
        parts[0] + ", "@ + join_comma_spec(parts.drop_first())
    }
}

/// Joining distributes over taking one more element at the end.
proof fn lemma_join_comma_snoc(parts: Seq<Seq<char>>, last: Seq<char>)
    requires
        parts.len() > 0,
    ensures
        join_comma_spec(parts.push(last)) == join_comma_spec(parts) + ", "@ + last,
    decreases parts.len(),
{
    if parts.len() == 1 {
        let p = parts.push(last);
        assert(p.len() == 2);
        assert(p[0] == parts[0]);
        assert(p.drop_first() =~= seq![last]);
        assert(join_comma_spec(seq![last]) == last);
        assert(join_comma_spec(p) == p[0] + ", "@ + join_comma_spec(p.drop_first()));
    } else {
        lemma_join_comma_snoc(parts.drop_first(), last);
        assert(parts.push(last).drop_first() =~= parts.drop_first().push(last));
        assert(join_comma_spec(parts.push(last)) =~= join_comma_spec(parts) + ", "@ + last);
    }
}

/// Joins the elements of a list with `", "` between neighbours.
pub fn join_comma(parts: &Vec<String>) -> (r: String)
    ensures
        r@ == join_comma_spec(parts.deep_view()),
{
    let mut out = String::new();
    let n = parts.len();
    let mut i: usize = 0;
    while i < n
        invariant
            n == parts@.len(),
            i <= n,
            out@ == join_comma_spec(parts.deep_view().take(i as int)),
        decreases n - i,
    {
        if i > 0 {
            out.append(", ");
        }
        out.append(parts[i].as_str());
        proof {
            let views = parts.deep_view();
            assert(views.take(i + 1) =~= views.take(i as int).push(views[i as int]));
            if i > 0 {
                lemma_join_comma_snoc(views.take(i as int), views[i as int]);
            } else {
                assert(views.take(1) =~= seq![views[0]]);
            }
        }
        i += 1;
    }
    proof {
        assert(parts.deep_view().take(n as int) =~= parts.deep_view());
    }
    out
}

/// One sequence occurs somewhere inside another.
pub open spec fn contains_seq<A>(hay: Seq<A>, needle: Seq<A>) -> bool {
    exists|k: int|
        0 <= k && k + needle.len() <= hay.len() && #[trigger] hay.subrange(k, k + needle.len())
            == needle
}

/// A needle found at a concrete offset is contained.
pub proof fn lemma_contains_at<A>(hay: Seq<A>, needle: Seq<A>, k: int)
    requires
        0 <= k,
        k + needle.len() <= hay.len(),
        hay.subrange(k, k + needle.len()) == needle,
    ensures
        contains_seq(hay, needle),
{
}

/// Containment composes: what a part holds, the whole holds.
pub proof fn lemma_contains_trans<A>(hay: Seq<A>, mid: Seq<A>, needle: Seq<A>)
    requires
        contains_seq(hay, mid),
        contains_seq(mid, needle),
    ensures
        contains_seq(hay, needle),
{
    let k1 = choose|k: int|
        0 <= k && k + mid.len() <= hay.len() && #[trigger] hay.subrange(k, k + mid.len()) == mid;
    let k2 = choose|k: int|
        0 <= k && k + needle.len() <= mid.len() && #[trigger] mid.subrange(k, k + needle.len())
            == needle;
    assert(hay.subrange(k1 + k2, k1 + k2 + needle.len()) =~= mid.subrange(k2, k2 + needle.len()));
    lemma_contains_at(hay, needle, k1 + k2);
}

/// Each element of a joined list occurs inside the joined text.
pub proof fn lemma_join_contains_part(parts: Seq<Seq<char>>, i: int)
    requires
        0 <= i < parts.len(),
    ensures
        contains_seq(join_comma_spec(parts), parts[i]),
    decreases parts.len(),
{
    let joined = join_comma_spec(parts);
    if parts.len() == 1 {
        assert(joined.subrange(0, parts[0].len() as int) =~= parts[0]);
        lemma_contains_at(joined, parts[0], 0);
    } else if i == 0 {
        assert(joined.subrange(0, parts[0].len() as int) =~= parts[0]);
        lemma_contains_at(joined, parts[0], 0);
    } else {
        reveal_strlit(", ");
        assert(", "@.len() == 2);
        lemma_join_contains_part(parts.drop_first(), i - 1);
        let rest = join_comma_spec(parts.drop_first());
        let off: int = parts[0].len() as int + 2;
        assert(joined.subrange(off, off + rest.len()) =~= rest);
        lemma_contains_at(joined, rest, off);
        lemma_contains_trans(joined, rest, parts.drop_first()[i - 1]);
    }
}

} // verus!
