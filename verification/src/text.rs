use vstd::prelude::*;
use vstd::string::StrSliceExecFns;
use itertools::Itertools;

verus! {

/// Whether a sequence of characters is in ascending order.
pub open spec fn sorted_asc(s: Seq<char>) -> bool {
    forall|i: int, j: int| 0 <= i < j < s.len() ==> s[i] <= s[j]
}

/// An ascending sequence holding given characters with given multiplicities is
/// unique. So the sorted display of the guessed letters, and with it the whole
/// rendered status, is a pure function of the game state: rendering the same
/// state twice yields identical lines.
pub proof fn lemma_sorted_unique(a: Seq<char>, b: Seq<char>)
    requires
        sorted_asc(a),
        sorted_asc(b),
        a.to_multiset() == b.to_multiset(),
    ensures
        a == b,
    decreases a.len(),
{
    vstd::seq_lib::to_multiset_len(a);
    vstd::seq_lib::to_multiset_len(b);
    if a.len() == 0 {
        assert(a =~= b);
    } else {
        vstd::seq_lib::to_multiset_contains(b, a[0]);
        vstd::seq_lib::to_multiset_contains(a, b[0]);
        assert(a.contains(a[0]));
        vstd::seq_lib::to_multiset_contains(a, a[0]);
        assert(b.contains(a[0]));
        let j = choose|j: int| 0 <= j < b.len() && b[j] == a[0];
        assert(b[0] <= b[j]);
        assert(b.contains(b[0]));
        vstd::seq_lib::to_multiset_contains(b, b[0]);
        assert(a.contains(b[0]));
        let k = choose|k: int| 0 <= k < a.len() && a[k] == b[0];
        assert(a[0] <= a[k]);
        assert(a[0] == b[0]);
        let a1 = a.remove(0);
        let b1 = b.remove(0);
        vstd::seq_lib::to_multiset_remove(a, 0);
        vstd::seq_lib::to_multiset_remove(b, 0);
        a.remove_ensures(0);
        b.remove_ensures(0);
        assert(sorted_asc(a1)) by {
            assert(forall|i: int| 0 <= i < a1.len() ==> a1[i] == a[i + 1]);
        }
        assert(sorted_asc(b1)) by {
            assert(forall|i: int| 0 <= i < b1.len() ==> b1[i] == b[i + 1]);
        }
        lemma_sorted_unique(a1, b1);
        assert forall|i: int| 0 <= i < a.len() implies a[i] == b[i] by {
            if i >= 1 {
                assert(a1[i - 1] == a[i]);
                assert(b1[i - 1] == b[i]);
                assert(a1[i - 1] == b1[i - 1]);
            }
        }
        assert(a =~= b);
    }
}

/// Relies on String::push: appends the given character to the end of the string.
#[verifier::external_body]
fn push_char(s: &mut String, c: char)
    ensures
        final(s)@ == old(s)@.push(c),
{
    s.push(c);
}

/// Builds the string holding exactly the given characters, in order.
pub fn chars_to_string(v: &Vec<char>) -> (r: String)
    ensures
        r@ == v@,
{
    let mut r = String::new();
    let mut i: usize = 0;
    while i < v.len()
        invariant
            i <= v@.len(),
            r@ == v@.subrange(0, i as int),
        decreases v@.len() - i,
    {
        push_char(&mut r, v[i]);
        proof {
            assert(v@.subrange(0, i as int).push(v@[i as int]) =~= v@.subrange(0, i + 1));
        }
        i = i + 1;
    }
    proof {
        assert(v@.subrange(0, v@.len() as int) =~= v@);
    }
    r
}

/// The characters of a string, in order.
pub fn str_to_chars(s: &str) -> (r: Vec<char>)
    ensures
        r@ == s@,
{
    let n = s.unicode_len();
    let mut r: Vec<char> = Vec::new();
    let mut i: usize = 0;
    while i < n
        invariant
            i <= n,
            n == s@.len(),
            r@ == s@.subrange(0, i as int),
        decreases n - i,
    {
        let c = s.get_char(i);
        r.push(c);
        proof {
            assert(s@.subrange(0, i as int).push(s@[i as int]) =~= s@.subrange(0, i + 1));
        }
        i = i + 1;
    }
    proof {
        assert(s@.subrange(0, s@.len() as int) =~= s@);
    }
    r
}

/// Whether a character occurs in a vector.
pub fn contains_char(v: &Vec<char>, c: char) -> (r: bool)
    ensures
        r == v@.contains(c),
{
    let mut i: usize = 0;
    while i < v.len()
        invariant
            i <= v@.len(),
            forall|j: int| 0 <= j < i ==> v@[j] != c,
        decreases v@.len() - i,
    {
        if v[i] == c {
            return true;
        }
        i = i + 1;
    }
    false
}

/// Relies on itertools::Itertools::sorted: sorts the iterator's elements into
/// ascending order, returning exactly the same elements.
#[verifier::external_body]
pub fn sorted_chars(v: &Vec<char>) -> (r: Vec<char>)
    ensures
        r@.to_multiset() == v@.to_multiset(),
        sorted_asc(r@),
{
    v.iter().copied().sorted().collect()
}

/// The total number of unique characters in a string.
pub fn get_unique_characters(strin: String) -> (r: i32)
    requires
        strin@.len() <= 0x7fff_ffff,
    ensures
        r == strin@.to_set().len(),
{
    let chars = str_to_chars(strin.as_str());
    let mut seen: Vec<char> = Vec::new();
    let mut i: usize = 0;
    while i < chars.len()
        invariant
            i <= chars@.len(),
            chars@ == strin@,
            seen@.no_duplicates(),
            seen@.to_set() == chars@.subrange(0, i as int).to_set(),
            seen@.len() <= i,
        decreases chars@.len() - i,
    {
        let c = chars[i];
        proof {
            assert(chars@.subrange(0, i as int).push(chars@[i as int]) =~= chars@.subrange(
                0,
                i + 1,
            ));
            chars@.subrange(0, i as int).lemma_push_to_set_commute(c);
            if seen@.contains(c) {
                assert(seen@.to_set().contains(c));
                assert(chars@.subrange(0, i + 1).to_set() =~= chars@.subrange(0, i as int).to_set());
            } else {
                seen@.lemma_push_to_set_commute(c);
                assert(seen@.push(c).to_set() =~= seen@.to_set().insert(c));
            }
        }
        if !contains_char(&seen, c) {
            seen.push(c);
        }
        i = i + 1;
    }
    proof {
        assert(chars@.subrange(0, chars@.len() as int) =~= chars@);
        seen@.unique_seq_to_set();
    }
    seen.len() as i32
}

} // verus!
