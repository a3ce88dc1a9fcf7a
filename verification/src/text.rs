//! Character-level helpers for `str` values.
//!
//! Strings are modelled by their sequence of characters (`s@`); every
//! function here is specified over that sequence.

use vstd::prelude::*;
use vstd::std_specs::iter::IteratorSpec;
use vstd::string::StringExecFns;

verus! {

/// `String::push` appends one character to the end of the string.
pub assume_specification[ String::push ](s: &mut String, c: char)
    ensures
        final(s)@ == old(s)@.push(c),
;

/// The view of an optional string.
pub open spec fn opt_view(o: Option<String>) -> Option<Seq<char>> {
    match o {
        Some(s) => Some(s@),
        None => None,
    }
}

/// The views of a sequence of strings.
pub open spec fn views(v: Seq<String>) -> Seq<Seq<char>> {
    v.map_values(|s: String| s@)
}

/// `s` ends with `suffix`.
pub open spec fn ends_with(s: Seq<char>, suffix: Seq<char>) -> bool {
    suffix.len() <= s.len() && s.subrange(s.len() - suffix.len(), s.len() as int) == suffix
}

/// `s` split at every occurrence of `sep`. There is always at least one
/// field; a separator at either end gives an empty field there.
pub open spec fn fields(s: Seq<char>, sep: char) -> Seq<Seq<char>>
    decreases s.len(),
{
    if s.len() == 0 {
        seq![Seq::<char>::empty()]
    } else {
        let rest = fields(s.drop_last(), sep);
        if s.last() == sep {
            rest.push(Seq::<char>::empty())
        } else {
            rest.update(rest.len() - 1, rest.last().push(s.last()))
        }
    }
}

/// The parts of `parts` written one after the other with `sep` between
/// them.
pub open spec fn joined(parts: Seq<Seq<char>>, sep: char) -> Seq<char>
    decreases parts.len(),
{
    if parts.len() == 0 {
        Seq::<char>::empty()
    } else if parts.len() == 1 {
        parts[0]
    } else {
        joined(parts.drop_last(), sep).push(sep) + parts.last()
    }
}

/// Splitting gives at least one field, no field holds the separator, and
/// the fields joined by the separator give the text back.
pub proof fn lemma_fields_split(s: Seq<char>, sep: char)
    ensures
        fields(s, sep).len() >= 1,
        forall|i: int| 0 <= i < fields(s, sep).len() ==> !(#[trigger] fields(s, sep)[i]).contains(sep),
        joined(fields(s, sep), sep) == s,
    decreases s.len(),
{
    let f = fields(s, sep);
    if s.len() == 0 {
        assert(f[0] =~= Seq::<char>::empty());
        assert(joined(f, sep) =~= s);
    } else {
        let head = s.drop_last();
        let c = s.last();
        let rest = fields(head, sep);
        lemma_fields_split(head, sep);
        assert(s =~= head.push(c));
        if c == sep {
            assert(f.drop_last() =~= rest);
            assert(joined(f, sep) =~= joined(rest, sep).push(sep));
            assert forall|i: int| 0 <= i < f.len() implies !(#[trigger] f[i]).contains(sep) by {
                if i < rest.len() {
                    assert(f[i] == rest[i]);
                }
            }
        } else {
            let last = rest.last().push(c);
            assert forall|i: int| 0 <= i < f.len() implies !(#[trigger] f[i]).contains(sep) by {
                if i < rest.len() - 1 {
                    assert(f[i] == rest[i]);
                } else {
                    assert(f[i] == last);
                    assert(!rest[rest.len() - 1].contains(sep));
                    if last.contains(sep) {
                        let k = choose|k: int| 0 <= k < last.len() && last[k] == sep;
                        assert(k < rest.last().len());
                        assert(rest.last()[k] == sep);
                    }
                }
            }
            if rest.len() == 1 {
                assert(joined(f, sep) =~= joined(rest, sep).push(c));
            } else {
                assert(f.drop_last() =~= rest.drop_last());
                assert(joined(f, sep) =~= joined(rest, sep).push(c));
            }
        }
    }
}

/// The characters of `s`, in order.
pub fn chars_of(s: &str) -> (out: Vec<char>)
    ensures
        out@ == s@,
{
    let mut out: Vec<char> = Vec::new();
    for c in it: s.chars()
        invariant
            it.seq() == s@,
            out@ == s@.take(it.index() as int),
    {
        out.push(c);
        assert(s@.take(it.index() + 1) =~= s@.take(it.index() as int).push(c));
    }
    assert(s@.take(s@.len() as int) =~= s@);
    out
}

/// Whether `s` ends with `suffix`.
pub fn str_ends_with(s: &str, suffix: &str) -> (r: bool)
    ensures
        r == ends_with(s@, suffix@),
{
    let a = chars_of(s);
    let b = chars_of(suffix);
    if b.len() > a.len() {
        return false;
    }
    let off: usize = a.len() - b.len();
    let mut i: usize = 0;
    while i < b.len()
        invariant
            a@ == s@,
            b@ == suffix@,
            off + b.len() == a.len(),
            i <= b.len(),
            forall|j: int| 0 <= j < i ==> a@[off + j] == b@[j],
        decreases b.len() - i,
    {
        if a[off + i] != b[i] {
            assert(a@.subrange(off as int, a@.len() as int)[i as int] == a@[off + i]);
            return false;
        }
        i += 1;
    }
    assert(a@.subrange(off as int, a@.len() as int) =~= b@);
    true
}

/// Splits `s` at every occurrence of `sep`.
pub fn split_fields(s: &str, sep: char) -> (out: Vec<String>)
    ensures
        views(out@) == fields(s@, sep),
{
    let mut out: Vec<String> = Vec::new();
    let mut cur: String = String::new();
    proof {
        assert(s@.take(0) =~= Seq::<char>::empty());
        assert(views(out@).push(cur@) =~= fields(s@.take(0), sep));
    }
    for c in it: s.chars()
        invariant
            it.seq() == s@,
            views(out@).push(cur@) == fields(s@.take(it.index() as int), sep),
    {
        let ghost before = s@.take(it.index() as int);
        let ghost after = s@.take(it.index() + 1);
        let ghost done = views(out@);
        let ghost cur0 = cur@;
        proof {
            assert(after.drop_last() =~= before);
            assert(after.last() == c);
        }
        if c == sep {
            out.push(cur);
            cur = String::new();
            proof {
                assert(views(out@) =~= done.push(cur0));
            }
        } else {
            cur.push(c);
            proof {
                assert(done.push(cur@) =~= done.push(cur0).update(done.len() as int, cur0.push(c)));
            }
        }
    }
    proof {
        assert(s@.take(s@.len() as int) =~= s@);
    }
    let ghost done = views(out@);
    let ghost last = cur@;
    out.push(cur);
    proof {
        assert(views(out@) =~= done.push(last));
    }
    out
}

/// The concatenation of `a` and `b`.
pub fn concat2(a: &str, b: &str) -> (r: String)
    ensures
        r@ == a@ + b@,
{
    String::from_str(a).concat(b)
}

} // verus!
