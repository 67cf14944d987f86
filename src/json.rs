//! Building blocks of the JSON text: the mathematical form of each piece,
//! and the executable code that writes it.

use vstd::prelude::*;
use vstd::string::StringExecFns;

verus! {

/// The JSON string literal of `s` (quoted and escaped) as serde_json writes it.
pub uninterp spec fn json_string_of(s: Seq<char>) -> Seq<char>;

/// The decimal digit for `d < 10`.
pub open spec fn digit(d: nat) -> char {
    seq!['0', '1', '2', '3', '4', '5', '6', '7', '8', '9'][d as int]
}

/// Decimal text of a natural number, without leading zeros.
pub open spec fn decimal(n: nat) -> Seq<char>
    decreases n,
{
    if n < 10 {
        seq![digit(n)]
    } else {
        decimal(n / 10) + seq![digit(n % 10)]
    }
}

/// Decimal text of an integer, with a leading `-` when it is negative.
pub open spec fn signed_decimal(i: int) -> Seq<char> {
    if i < 0 {
        seq!['-'] + decimal((-i) as nat)
    } else {
        decimal(i as nat)
    }
}

/// `items` separated by `sep`.
pub open spec fn join(items: Seq<Seq<char>>, sep: Seq<char>) -> Seq<char>
    decreases items.len(),
{
    if items.len() == 0 {
        Seq::empty()
    } else if items.len() == 1 {
        items[0]
    } else {
        join(items.drop_last(), sep) + sep + items.last()
    }
}

/// A JSON array whose elements are the JSON texts `items`.
pub open spec fn array_json(items: Seq<Seq<char>>) -> Seq<char> {
    "["@ + join(items, ","@) + "]"@
}

/// A JSON object with two members, `a: x` and `b: y`, in that order.
pub open spec fn pair_json(a: Seq<char>, x: Seq<char>, b: Seq<char>, y: Seq<char>) -> Seq<char> {
    "{\""@ + a + "\":"@ + x + ",\""@ + b + "\":"@ + y + "}"@
}

/// A JSON object with the single member `key`.
pub open spec fn key_json(k: Seq<char>) -> Seq<char> {
    "{\"key\":"@ + k + "}"@
}

/// The views of a sequence of strings.
pub open spec fn views(s: Seq<String>) -> Seq<Seq<char>> {
    s.map_values(|x: String| x@)
}

/// Relies on serde_json::to_string for a `str`: the escaped JSON string
/// literal, a function of the characters alone. It writes into a `Vec`,
/// which cannot fail.
#[verifier::external_body]
pub(crate) fn json_string(s: &str) -> (r: String)
    ensures
        r@ == json_string_of(s@),
{
    match serde_json::to_string(s) {
        Ok(t) => t,
        Err(_) => String::new(),
    }
}

/// Relies on serde_json::to_string for a `u64`: its decimal digits, written
/// by itoa.
#[verifier::external_body]
pub(crate) fn json_u64(n: u64) -> (r: String)
    ensures
        r@ == decimal(n as nat),
{
    match serde_json::to_string(&n) {
        Ok(t) => t,
        Err(_) => String::new(),
    }
}

/// Relies on serde_json::to_string for an `i32`: its decimal digits after a
/// `-` when negative, written by itoa.
#[verifier::external_body]
pub(crate) fn json_i32(n: i32) -> (r: String)
    ensures
        r@ == signed_decimal(n as int),
{
    match serde_json::to_string(&n) {
        Ok(t) => t,
        Err(_) => String::new(),
    }
}

/// Writes the two-member object `{"a":x,"b":y}`.
pub fn pair_object(a: &str, x: &str, b: &str, y: &str) -> (r: String)
    ensures
        r@ == pair_json(a@, x@, b@, y@),
{
    let mut r = String::from_str("{\"");
    r.append(a);
    r.append("\":");
    r.append(x);
    r.append(",\"");
    r.append(b);
    r.append("\":");
    r.append(y);
    r.append("}");
    r
}

/// Writes the object `{"key":k}`.
pub fn key_object(k: &str) -> (r: String)
    ensures
        r@ == key_json(k@),
{
    let mut r = String::from_str("{\"key\":");
    r.append(k);
    r.append("}");
    r
}

pub proof fn lemma_join_push(items: Seq<Seq<char>>, x: Seq<char>, sep: Seq<char>)
    ensures
        join(items.push(x), sep) == if items.len() == 0 {
            x
        } else {
            join(items, sep) + sep + x
        },
{
    assert(items.push(x).drop_last() =~= items);
}

/// Appends to `out` the JSON array of `items[lo..hi]`.
pub fn append_array(out: &mut String, items: &Vec<String>, lo: usize, hi: usize)
    requires
        lo <= hi <= items@.len(),
    ensures
        final(out)@ == old(out)@ + array_json(views(items@).subrange(lo as int, hi as int)),
{
    let ghost start = out@;
    out.append("[");
    let mut i: usize = lo;
    while i < hi
        invariant
            lo <= i <= hi <= items@.len(),
            out@ == start + "["@ + join(views(items@).subrange(lo as int, i as int), ","@),
        decreases hi - i,
    {
        proof {
            let s = views(items@).subrange(lo as int, i as int);
            lemma_join_push(s, items@[i as int]@, ","@);
            assert(views(items@).subrange(lo as int, i + 1) =~= s.push(items@[i as int]@));
        }
        if i > lo {
            out.append(",");
        }
        out.append(items[i].as_str());
        i = i + 1;
    }
    out.append("]");
}

/// Appends to `out` the JSON array of the elements `lo..hi` of `items`
/// taken in reverse order (the last of `items` first).
pub fn append_array_reversed(out: &mut String, items: &Vec<String>, lo: usize, hi: usize)
    requires
        lo <= hi <= items@.len(),
    ensures
        final(out)@ == old(out)@ + array_json(
            views(items@).reverse().subrange(lo as int, hi as int),
        ),
{
    let ghost start = out@;
    let ghost rev = views(items@).reverse();
    let n = items.len();
    out.append("[");
    let mut i: usize = lo;
    while i < hi
        invariant
            lo <= i <= hi <= items@.len(),
            n == items@.len(),
            rev == views(items@).reverse(),
            out@ == start + "["@ + join(rev.subrange(lo as int, i as int), ","@),
        decreases hi - i,
    {
        proof {
            let s = rev.subrange(lo as int, i as int);
            assert(rev[i as int] == items@[n - 1 - i]@);
            lemma_join_push(s, rev[i as int], ","@);
            assert(rev.subrange(lo as int, i + 1) =~= s.push(rev[i as int]));
        }
        if i > lo {
            out.append(",");
        }
        out.append(items[n - 1 - i].as_str());
        i = i + 1;
    }
    out.append("]");
}

} // verus!
