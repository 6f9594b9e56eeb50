//! Byte-level helpers shared by the framing and validation code.

use rand::Rng;
use vstd::prelude::*;
use vstd::slice::{slice_subrange, slice_to_vec};

verus! {

/// `search` stands in `bin` at offset `i`.
pub open spec fn occurs_at(bin: Seq<u8>, search: Seq<u8>, i: int) -> bool {
    &&& 0 <= i
    &&& i + search.len() <= bin.len()
    &&& bin.subrange(i, i + search.len()) == search
}

/// `search` stands nowhere in `bin`.
pub open spec fn occurs_nowhere(bin: Seq<u8>, search: Seq<u8>) -> bool {
    forall|j: int| !occurs_at(bin, search, j)
}

/// `i` is the first offset at which `search` stands in `bin`.
pub open spec fn first_occurrence(bin: Seq<u8>, search: Seq<u8>, i: int) -> bool {
    &&& occurs_at(bin, search, i)
    &&& forall|j: int| 0 <= j < i ==> !occurs_at(bin, search, j)
}

/// `search` stands somewhere in `bin`.
pub open spec fn mentions(bin: Seq<u8>, search: Seq<u8>) -> bool {
    exists|i: int| occurs_at(bin, search, i)
}

/// The first offset at which `search` stands in `bin`, if it stands there at all.
pub open spec fn find_first(bin: Seq<u8>, search: Seq<u8>) -> Option<int> {
    if exists|i: int| first_occurrence(bin, search, i) {
        Some(choose|i: int| first_occurrence(bin, search, i))
    } else {
        None
    }
}

/// There is at most one first offset, so `find_first` names it.
pub proof fn lemma_find_first_is(bin: Seq<u8>, search: Seq<u8>, i: int)
    requires
        first_occurrence(bin, search, i),
    ensures
        find_first(bin, search) == Some(i),
        mentions(bin, search),
{
    let j = choose|j: int| first_occurrence(bin, search, j);
    assert(first_occurrence(bin, search, j));
    if j < i {
        assert(!occurs_at(bin, search, j));
    }
    if i < j {
        assert(!occurs_at(bin, search, i));
    }
}

/// Where `search` stands nowhere, `find_first` finds nothing.
pub proof fn lemma_find_first_none(bin: Seq<u8>, search: Seq<u8>)
    requires
        occurs_nowhere(bin, search),
    ensures
        find_first(bin, search) is None,
        !mentions(bin, search),
{
    if exists|i: int| first_occurrence(bin, search, i) {
        let i = choose|i: int| first_occurrence(bin, search, i);
        assert(occurs_at(bin, search, i));
    }
    if mentions(bin, search) {
        let i = choose|i: int| occurs_at(bin, search, i);
        assert(occurs_at(bin, search, i));
    }
}

/// Whether two byte slices hold the same bytes.
pub fn bytes_eq(a: &[u8], b: &[u8]) -> (r: bool)
    ensures
        r == (a@ == b@),
{
    if a.len() != b.len() {
        return false;
    }
    let mut k: usize = 0;
    while k < a.len()
        invariant
            a@.len() == b@.len(),
            k <= a@.len(),
            forall|m: int| 0 <= m < k ==> a@[m] == b@[m],
        decreases a@.len() - k,
    {
        if a[k] != b[k] {
            return false;
        }
        k += 1;
    }
    assert(a@ =~= b@);
    true
}

/// A copy of the bytes of `bin` from offset `from` up to, not including, `to`.
pub(crate) fn copy_range(bin: &[u8], from: usize, to: usize) -> (r: Vec<u8>)
    requires
        from <= to <= bin@.len(),
    ensures
        r@ == bin@.subrange(from as int, to as int),
{
    slice_to_vec(slice_subrange(bin, from, to))
}

/// Whether `search` stands in `bin` at offset `i`.
pub fn matches_at(bin: &[u8], search: &[u8], i: usize) -> (r: bool)
    ensures
        r == occurs_at(bin@, search@, i as int),
{
    if i > bin.len() || search.len() > bin.len() - i {
        return false;
    }
    let window = slice_subrange(bin, i, i + search.len());
    bytes_eq(window, search)
}

/// Finds the first place at which the byte string `search` stands in `bin`.
///
/// An empty `search` stands at offset 0 of every `bin`; a `search` longer
/// than `bin` stands nowhere.
pub fn binary_search(bin: &[u8], search: &[u8]) -> (r: Option<usize>)
    ensures
        match r {
            Some(i) => first_occurrence(bin@, search@, i as int),
            None => occurs_nowhere(bin@, search@),
        },
        match r {
            Some(i) => find_first(bin@, search@) == Some(i as int),
            None => find_first(bin@, search@) is None,
        },
        r is Some == mentions(bin@, search@),
{
    if search.len() > bin.len() {
        proof {
            lemma_find_first_none(bin@, search@);
        }
        return None;
    }
    let last: usize = bin.len() - search.len();
    let mut i: usize = 0;
    loop
        invariant
            last == bin@.len() - search@.len(),
            i <= last,
            forall|j: int| 0 <= j < i ==> !occurs_at(bin@, search@, j),
        decreases last - i,
    {
        if matches_at(bin, search, i) {
            proof {
                lemma_find_first_is(bin@, search@, i as int);
            }
            return Some(i);
        }
        if i == last {
            proof {
                lemma_find_first_none(bin@, search@);
            }
            return None;
        }
        i += 1;
    }
}

/// `Rng::gen_range` of the `rand` crate on the thread's generator, for
/// the range from zero up to, not including, `bound`: some index of the
/// range. An empty range is refused.
#[verifier::external_body]
pub(crate) fn random_below(bound: usize) -> (r: usize)
    requires
        bound > 0,
    ensures
        r < bound,
{
    rand::thread_rng().gen_range(0..bound)
}

/// The characters of which random identifiers are made.
pub open spec fn id_alphabet() -> Seq<char> {
    "123456789abcdef"@
}

/// Every character of the text is one of the identifier alphabet.
pub open spec fn is_id_text(text: Seq<char>) -> bool {
    forall|i: int| 0 <= i < text.len() ==> id_alphabet().contains(#[trigger] text[i])
}

/// A random string of `num` characters of the identifier alphabet.
pub fn random_string(num: u32) -> (r: String)
    ensures
        r@.len() == num,
        is_id_text(r@),
{
    let alphabet = "123456789abcdef";
    proof {
        reveal_strlit("123456789abcdef");
    }
    let count: usize = alphabet.unicode_len();
    let mut ret_str = String::new();
    let mut i: u32 = 0;
    while i < num
        invariant
            i <= num,
            alphabet@ == id_alphabet(),
            count == alphabet@.len(),
            count > 0,
            ret_str@.len() == i,
            is_id_text(ret_str@),
        decreases num - i,
    {
        let nums = random_below(count);
        let k = alphabet.get_char(nums);
        ret_str.push(k);
        assert(id_alphabet()[nums as int] == k);
        i += 1;
    }
    ret_str
}

} // verus!
