//! Text helpers over strings, specified by their character sequences.

use vstd::prelude::*;
use vstd::string::*;

verus! {

/// `String::push`, which appends a character to the end of the string.
pub assume_specification[ std::string::String::push ](s: &mut std::string::String, ch: char)
    ensures
        final(s)@ == old(s)@.push(ch),
;

/// The characters of `s`, in order.
pub fn chars_of(s: &str) -> (r: Vec<char>)
    ensures
        r@ == s@,
{
    let mut r: Vec<char> = Vec::new();
    for c in it: s.chars()
        invariant
            r@ == it.seq().take(it.index() as int),
    {
        r.push(c);
    }
    r
}

/// Whether `needle` occurs in `s`.
pub open spec fn seq_contains(s: Seq<char>, needle: Seq<char>) -> bool {
    exists|i: int| 0 <= i <= s.len() - needle.len() && #[trigger] s.subrange(i, i + needle.len()) == needle
}

/// Whether `a[start..]` begins with `b`.
fn matches_at(a: &Vec<char>, start: usize, b: &Vec<char>) -> (r: bool)
    requires
        start + b@.len() <= a@.len(),
    ensures
        r == (a@.subrange(start as int, start + b@.len()) == b@),
{
    let mut k: usize = 0;
    while k < b.len()
        invariant
            k <= b@.len(),
            start + b@.len() <= a.len(),
            forall|t: int| 0 <= t < k ==> a@[start + t] == b@[t],
        decreases b@.len() - k,
    {
        if a[start + k] != b[k] {
            assert(a@.subrange(start as int, start + b@.len())[k as int] != b@[k as int]);
            return false;
        }
        k = k + 1;
    }
    assert(a@.subrange(start as int, start + b@.len()) =~= b@);
    true
}

/// Whether `s` begins with `prefix`.
pub fn starts_with(s: &str, prefix: &str) -> (r: bool)
    ensures
        r == prefix@.is_prefix_of(s@),
{
    let a = chars_of(s);
    let b = chars_of(prefix);
    if b.len() > a.len() {
        return false;
    }
    let r = matches_at(&a, 0, &b);
    proof {
        if r {
            assert forall|i: int| 0 <= i < b@.len() implies b@[i] == a@[i] by {
                assert(a@.subrange(0, b@.len() as int)[i] == a@[i]);
            }
        } else {
            if prefix@.is_prefix_of(s@) {
                assert(a@.subrange(0, b@.len() as int) =~= b@);
            }
        }
    }
    r
}

/// Whether `needle` occurs in `s`.
pub fn contains(s: &str, needle: &str) -> (r: bool)
    ensures
        r == seq_contains(s@, needle@),
{
    let a = chars_of(s);
    let b = chars_of(needle);
    if b.len() > a.len() {
        return false;
    }
    let last = a.len() - b.len();
    let mut i: usize = 0;
    loop
        invariant
            i <= last,
            last == a@.len() - b@.len(),
            a@ == s@,
            b@ == needle@,
            forall|j: int| 0 <= j < i ==> #[trigger] a@.subrange(j, j + b@.len()) != b@,
        decreases last - i,
    {
        if matches_at(&a, i, &b) {
            return true;
        }
        if i == last {
            return false;
        }
        i = i + 1;
    }
}

/// The items of `items` with `sep` between each two.
pub open spec fn seq_join(items: Seq<Seq<char>>, sep: Seq<char>) -> Seq<char>
    decreases items.len(),
{
    if items.len() == 0 {
        Seq::empty()
    } else if items.len() == 1 {
        items[0]
    } else {
        seq_join(items.drop_last(), sep) + sep + items.last()
    }
}

/// The views of a list of strings.
pub open spec fn strings_view(items: Seq<String>) -> Seq<Seq<char>> {
    Seq::new(items.len(), |i: int| items[i]@)
}

/// The items of `items` with `sep` between each two.
pub fn join(items: &Vec<String>, sep: &str) -> (r: String)
    ensures
        r@ == seq_join(strings_view(items@), sep@),
{
    let mut r = String::new();
    let mut i: usize = 0;
    while i < items.len()
        invariant
            i <= items@.len(),
            r@ == seq_join(strings_view(items@).take(i as int), sep@),
        decreases items@.len() - i,
    {
        if i != 0 {
            r.append(sep);
        }
        r.append(items[i].as_str());
        proof {
            let v = strings_view(items@);
            assert(v.take(i + 1).drop_last() =~= v.take(i as int));
            assert(v.take(i + 1).last() == items@[i as int]@);
            if i == 0 {
                assert(v.take(1) =~= seq![items@[0]@]);
            }
        }
        i = i + 1;
    }
    assert(strings_view(items@).take(items@.len() as int) =~= strings_view(items@));
    r
}

} // verus!
