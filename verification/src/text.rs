//! Comparison of string slices.

use vstd::prelude::*;
use vstd::string::{StrSliceExecFns, StringExecFns, StringSliceAdditionalSpecFns};
use vstd::utf8::encode_utf8_decode_utf8;

verus! {

/// Two texts whose encodings agree are the same text.
pub proof fn lemma_same_bytes_same_text(a: &str, b: &str)
    requires
        a.spec_bytes() == b.spec_bytes(),
    ensures
        a@ == b@,
{
    encode_utf8_decode_utf8(a@);
    encode_utf8_decode_utf8(b@);
}

/// Decides whether two string slices hold the same text.
pub fn same_text(a: &str, b: &str) -> (same: bool)
    ensures
        same == (a@ == b@),
{
    let x = a.as_bytes();
    let y = b.as_bytes();
    if x.len() != y.len() {
        return false;
    }
    let mut i: usize = 0;
    while i < x.len()
        invariant
            x@ == a.spec_bytes(),
            y@ == b.spec_bytes(),
            x@.len() == y@.len(),
            i <= x@.len(),
            forall|j: int| 0 <= j < i ==> x@[j] == y@[j],
        decreases x@.len() - i,
    {
        if x[i] != y[i] {
            return false;
        }
        i += 1;
    }
    proof {
        assert(x@ =~= y@);
        lemma_same_bytes_same_text(a, b);
    }
    true
}

/// A text in which every occurrence of `from` is replaced by `to`, going
/// from left to right and never looking into what was already replaced.
/// An empty `from` occurs nowhere.
pub open spec fn replaced(text: Seq<char>, from: Seq<char>, to: Seq<char>) -> Seq<char>
    decreases text.len(),
{
    if text.len() == 0 {
        text
    } else if 0 < from.len() <= text.len() && text.subrange(0, from.len() as int) == from {
        to + replaced(text.subrange(from.len() as int, text.len() as int), from, to)
    } else {
        seq![text[0]] + replaced(text.subrange(1, text.len() as int), from, to)
    }
}

/// Replaces every occurrence of `from` in `text` by `to`.
pub fn replace_all(text: &str, from: &str, to: &str) -> (out: String)
    ensures
        out@ == replaced(text@, from@, to@),
{
    let n = text.unicode_len();
    let m = from.unicode_len();
    let mut out = String::new();
    let mut i: usize = 0;
    assert(text@.subrange(0, n as int) =~= text@);
    while i < n
        invariant
            i <= n,
            n == text@.len(),
            m == from@.len(),
            out@ + replaced(text@.subrange(i as int, n as int), from@, to@) == replaced(
                text@,
                from@,
                to@,
            ),
        decreases n - i,
    {
        let ghost rest = text@.subrange(i as int, n as int);
        let ghost before = out@;
        if m > 0 && m <= n - i && same_text(text.substring_char(i, i + m), from) {
            out.append(to);
            proof {
                assert(rest.subrange(0, m as int) =~= text@.subrange(i as int, i + m));
                assert(rest.subrange(m as int, rest.len() as int) =~= text@.subrange(
                    i + m,
                    n as int,
                ));
                let tail = replaced(text@.subrange(i + m, n as int), from@, to@);
                assert(replaced(rest, from@, to@) == to@ + tail);
                assert((before + to@) + tail =~= before + (to@ + tail));
            }
            i = i + m;
        } else {
            out.append(text.substring_char(i, i + 1));
            proof {
                if 0 < m <= n - i {
                    assert(rest.subrange(0, m as int) =~= text@.subrange(i as int, i + m));
                }
                assert(text@.subrange(i as int, i + 1) =~= seq![rest[0]]);
                assert(rest.subrange(1, rest.len() as int) =~= text@.subrange(i + 1, n as int));
                let tail = replaced(text@.subrange(i + 1, n as int), from@, to@);
                assert(replaced(rest, from@, to@) == seq![rest[0]] + tail);
                assert((before + seq![rest[0]]) + tail =~= before + (seq![rest[0]] + tail));
            }
            i = i + 1;
        }
    }
    assert(out@ + Seq::<char>::empty() =~= out@);
    out
}

} // verus!
