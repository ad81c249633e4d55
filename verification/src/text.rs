//! Small verified operations on text.

use vstd::prelude::*;
use vstd::string::*;

verus! {

/// `prefix` is a prefix of `s`.
pub open spec fn has_prefix(s: Seq<char>, prefix: Seq<char>) -> bool {
    prefix.len() <= s.len() && s.subrange(0, prefix.len() as int) == prefix
}

/// `s` with every trailing `c` removed.
pub open spec fn strip_trailing(s: Seq<char>, c: char) -> Seq<char>
    decreases s.len(),
{
    if s.len() > 0 && s.last() == c {
        strip_trailing(s.drop_last(), c)
    } else {
        s
    }
}

/// Stripping removes exactly the trailing run of `c`: the result does not
/// end in `c`, and `s` is the result followed only by copies of `c`.
pub proof fn lemma_strip_trailing(s: Seq<char>, c: char)
    ensures
        strip_trailing(s, c).len() <= s.len(),
        s.subrange(0, strip_trailing(s, c).len() as int) == strip_trailing(s, c),
        forall|i: int| strip_trailing(s, c).len() <= i < s.len() ==> s[i] == c,
        strip_trailing(s, c).len() == 0 || strip_trailing(s, c).last() != c,
    decreases s.len(),
{
    if s.len() > 0 && s.last() == c {
        lemma_strip_trailing(s.drop_last(), c);
        let r = strip_trailing(s.drop_last(), c);
        assert(s.subrange(0, r.len() as int) =~= s.drop_last().subrange(0, r.len() as int));
        assert forall|i: int| r.len() <= i < s.len() implies s[i] == c by {
            if i < s.len() - 1 {
                assert(s.drop_last()[i] == s[i]);
            }
        }
    } else {
        assert(s.subrange(0, s.len() as int) =~= s);
    }
}

/// `prefix` is a prefix of `s` exactly when `s` agrees with it on each of
/// its characters.
pub proof fn lemma_has_prefix_chars(s: Seq<char>, prefix: Seq<char>)
    ensures
        has_prefix(s, prefix) <==> (prefix.len() <= s.len() && forall|i: int|
            0 <= i < prefix.len() ==> #[trigger] s[i] == prefix[i]),
{
    if prefix.len() <= s.len() && forall|i: int| 0 <= i < prefix.len() ==> #[trigger] s[i] == prefix[i] {
        assert(s.subrange(0, prefix.len() as int) =~= prefix);
    }
    if has_prefix(s, prefix) {
        assert forall|i: int| 0 <= i < prefix.len() implies #[trigger] s[i] == prefix[i] by {
            assert(s.subrange(0, prefix.len() as int)[i] == s[i]);
        }
    }
}

/// A path has a `..` component exactly when it has two dots bounded by `/`
/// or the ends; in particular any path with `/../` in it has one, and a
/// path without two dots in a row has none.
pub proof fn lemma_parent_component(a: Seq<char>, b: Seq<char>, s: Seq<char>)
    ensures
        has_parent_component(a + seq!['/', '.', '.', '/'] + b),
        has_parent_component(a + seq!['/', '.', '.']),
        (forall|i: int| 0 <= i < s.len() - 1 ==> !(#[trigger] s[i] == '.' && s[i + 1] == '.')) ==> !has_parent_component(s),
{
    let t = a + seq!['/', '.', '.', '/'] + b;
    assert(parent_component_at(t, a.len() as int + 1));
    let u = a + seq!['/', '.', '.'];
    assert(parent_component_at(u, a.len() as int + 1));
    if forall|i: int| 0 <= i < s.len() - 1 ==> !(#[trigger] s[i] == '.' && s[i + 1] == '.') {
        assert forall|i: int| !#[trigger] parent_component_at(s, i) by {
            if parent_component_at(s, i) {
                assert(s[i] == '.' && s[i + 1] == '.');
            }
        }
    }
}

/// Whether two texts are equal.
pub fn text_eq(a: &str, b: &str) -> (res: bool)
    ensures
        res == (a@ == b@),
{
    let n = a.unicode_len();
    if n != b.unicode_len() {
        return false;
    }
    let mut i: usize = 0;
    while i < n
        invariant
            n == a@.len(),
            n == b@.len(),
            0 <= i <= n,
            forall|j: int| 0 <= j < i ==> a@[j] == b@[j],
        decreases n - i,
    {
        if a.get_char(i) != b.get_char(i) {
            return false;
        }
        i = i + 1;
    }
    assert(a@ =~= b@);
    true
}

/// Whether `s` begins with `prefix`.
pub fn starts_with(s: &str, prefix: &str) -> (res: bool)
    ensures
        res == has_prefix(s@, prefix@),
{
    let n = prefix.unicode_len();
    if n > s.unicode_len() {
        return false;
    }
    let mut i: usize = 0;
    while i < n
        invariant
            n == prefix@.len(),
            n <= s@.len(),
            0 <= i <= n,
            forall|j: int| 0 <= j < i ==> s@[j] == prefix@[j],
        decreases n - i,
    {
        if s.get_char(i) != prefix.get_char(i) {
            assert(s@.subrange(0, n as int)[i as int] != prefix@[i as int]);
            return false;
        }
        i = i + 1;
    }
    assert(s@.subrange(0, n as int) =~= prefix@);
    true
}

/// Whether `needle` is one of `items`.
pub fn contains_text(items: &Vec<String>, needle: &str) -> (res: bool)
    ensures
        res == items.deep_view().contains(needle@),
{
    let mut i: usize = 0;
    while i < items.len()
        invariant
            0 <= i <= items.len(),
            forall|j: int| 0 <= j < i ==> items.deep_view()[j] != needle@,
        decreases items.len() - i,
    {
        if text_eq(items[i].as_str(), needle) {
            assert(items.deep_view()[i as int] == needle@);
            return true;
        }
        i = i + 1;
    }
    proof {
        if items.deep_view().contains(needle@) {
            let k = choose|k: int| 0 <= k < items.deep_view().len() && items.deep_view()[k] == needle@;
            assert(items.deep_view()[k] != needle@);
        }
    }
    false
}

/// `s` without its trailing `/` characters.
pub fn trim_trailing_slashes(s: &str) -> (res: String)
    ensures
        res@ == strip_trailing(s@, '/'),
        res@.len() <= s@.len(),
        s@.subrange(0, res@.len() as int) == res@,
        forall|i: int| res@.len() <= i < s@.len() ==> s@[i] == '/',
        res@.len() == 0 || res@.last() != '/',
{
    proof {
        lemma_strip_trailing(s@, '/');
    }
    let mut end = s.unicode_len();
    assert(s@.subrange(0, end as int) =~= s@);
    while end > 0 && s.get_char(end - 1) == '/'
        invariant
            end <= s@.len(),
            strip_trailing(s@, '/') == strip_trailing(s@.subrange(0, end as int), '/'),
        decreases end,
    {
        assert(s@.subrange(0, end as int).drop_last() =~= s@.subrange(0, end - 1));
        end = end - 1;
    }
    assert(strip_trailing(s@.subrange(0, end as int), '/') == s@.subrange(0, end as int));
    String::from_str(s.substring_char(0, end))
}

/// The concatenation of two texts.
pub fn join(a: &str, b: &str) -> (res: String)
    ensures
        res@ == a@ + b@,
{
    String::from_str(a).concat(b)
}

/// `path` has a `..` component: two dots with a `/` or an end on each side.
pub open spec fn has_parent_component(path: Seq<char>) -> bool {
    exists|i: int| #[trigger] parent_component_at(path, i)
}

/// A `..` component of `path` starts at index `i`.
pub open spec fn parent_component_at(path: Seq<char>, i: int) -> bool {
    &&& 0 <= i
    &&& i + 2 <= path.len()
    &&& path[i] == '.'
    &&& path[i + 1] == '.'
    &&& (i == 0 || path[i - 1] == '/')
    &&& (i + 2 == path.len() || path[i + 2] == '/')
}

/// Whether `path` has a `..` component.
pub fn climbs_to_parent(path: &str) -> (res: bool)
    ensures
        res == has_parent_component(path@),
{
    let n = path.unicode_len();
    if n < 2 {
        assert(forall|i: int| !#[trigger] parent_component_at(path@, i));
        return false;
    }
    let mut i: usize = 0;
    while i < n - 1
        invariant
            n == path@.len(),
            n >= 2,
            0 <= i <= n - 1,
            forall|j: int| 0 <= j < i ==> !#[trigger] parent_component_at(path@, j),
        decreases n - i,
    {
        let at_start = i == 0 || path.get_char(i - 1) == '/';
        let at_end = i + 2 == n || path.get_char(i + 2) == '/';
        if path.get_char(i) == '.' && path.get_char(i + 1) == '.' && at_start && at_end {
            assert(parent_component_at(path@, i as int));
            return true;
        }
        i = i + 1;
    }
    assert(forall|j: int| !#[trigger] parent_component_at(path@, j));
    false
}

} // verus!
