//! Joining several string slices into one exactly sized buffer.

use vstd::prelude::*;
use vstd::string::StringSliceAdditionalSpecFns;

verus! {

/// The texts of `parts`, one after the other.
pub open spec fn joined(parts: Seq<&str>) -> Seq<char>
    decreases parts.len(),
{
    if parts.len() == 0 {
        Seq::empty()
    } else {
        joined(parts.drop_last()) + parts.last()@
    }
}

/// The sum of the UTF-8 byte lengths of `parts`.
pub open spec fn total_bytes(parts: Seq<&str>) -> nat
    decreases parts.len(),
{
    if parts.len() == 0 {
        0
    } else {
        total_bytes(parts.drop_last()) + parts.last().spec_bytes().len()
    }
}

/// Relies on `String::with_capacity`: the new string is empty. It panics
/// where the capacity exceeds `isize::MAX` bytes.
#[verifier::external_body]
fn string_with_capacity(capacity: usize) -> (r: String)
    requires
        capacity <= isize::MAX,
    ensures
        r@.len() == 0,
{
    String::with_capacity(capacity)
}

/// Concatenates `parts` into one `String` whose buffer is allocated once, with
/// room for exactly the sum of their byte lengths. No `String` can be longer
/// than `isize::MAX` bytes.
pub fn str_concat(parts: &[&str]) -> (r: String)
    requires
        total_bytes(parts@) <= isize::MAX,
    ensures
        r@ == joined(parts@),
{
    let mut capacity: usize = 0;
    let mut i: usize = 0;
    while i < parts.len()
        invariant
            i <= parts@.len(),
            capacity == total_bytes(parts@.take(i as int)),
            total_bytes(parts@) <= isize::MAX,
        decreases parts@.len() - i,
    {
        proof {
            assert(parts@.take(i + 1).drop_last() =~= parts@.take(i as int));
            lemma_total_bytes_prefix(parts@, i + 1);
        }
        capacity = capacity + parts[i].as_bytes().len();
        i = i + 1;
    }
    assert(parts@.take(parts@.len() as int) =~= parts@);
    let mut buf = string_with_capacity(capacity);
    let mut k: usize = 0;
    while k < parts.len()
        invariant
            k <= parts@.len(),
            buf@ == joined(parts@.take(k as int)),
        decreases parts@.len() - k,
    {
        assert(parts@.take(k + 1).drop_last() =~= parts@.take(k as int));
        buf.append(parts[k]);
        k = k + 1;
    }
    assert(parts@.take(parts@.len() as int) =~= parts@);
    buf
}

/// The byte total of a prefix of `parts` is at most that of all of them.
proof fn lemma_total_bytes_prefix(parts: Seq<&str>, n: int)
    requires
        0 <= n <= parts.len(),
    ensures
        total_bytes(parts.take(n)) <= total_bytes(parts),
    decreases parts.len(),
{
    if n < parts.len() {
        assert(parts.drop_last().take(n) =~= parts.take(n));
        lemma_total_bytes_prefix(parts.drop_last(), n);
    } else {
        assert(parts.take(n) =~= parts);
    }
}

} // verus!
