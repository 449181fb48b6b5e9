use vstd::prelude::*;

verus! {

/// `needle` occurs in `hay` as a run of consecutive characters.
pub open spec fn occurs_in(hay: Seq<char>, needle: Seq<char>) -> bool {
    exists|i: int|
        0 <= i && i + needle.len() <= hay.len() && #[trigger] hay.subrange(i, i + needle.len())
            == needle
}

/// The characters of a string, in order.
fn chars_of(s: &str) -> (r: Vec<char>)
    ensures
        r@ == s@,
{
    let n = s.unicode_len();
    let mut v: Vec<char> = Vec::new();
    let mut i: usize = 0;
    while i < n
        invariant
            i <= n,
            n == s@.len(),
            v@ == s@.subrange(0, i as int),
        decreases n - i,
    {
        v.push(s.get_char(i));
        i += 1;
        assert(v@ =~= s@.subrange(0, i as int));
    }
    assert(v@ =~= s@);
    v
}

/// `w` stands in `h` from position `i` on.
fn matches_at(h: &Vec<char>, w: &Vec<char>, i: usize) -> (r: bool)
    requires
        i + w@.len() <= h@.len(),
    ensures
        r == (h@.subrange(i as int, i + w@.len()) == w@),
{
    let m = w.len();
    let mut j: usize = 0;
    while j < m
        invariant
            j <= m,
            m == w@.len(),
            i + m <= h@.len(),
            h@.len() == h.len(),
            forall|t: int| 0 <= t < j ==> h@[i + t] == w@[t],
        decreases m - j,
    {
        if h[i + j] != w[j] {
            assert(h@.subrange(i as int, i + m)[j as int] != w@[j as int]);
            return false;
        }
        j += 1;
    }
    assert(h@.subrange(i as int, i + m) =~= w@);
    true
}

/// Whether `needle` occurs in `hay` as a run of consecutive characters.
pub fn contains_text(hay: &str, needle: &str) -> (r: bool)
    ensures
        r == occurs_in(hay@, needle@),
{
    let h = chars_of(hay);
    let w = chars_of(needle);
    let m = w.len();
    if m > h.len() {
        return false;
    }
    let last = h.len() - m;
    let mut i: usize = 0;
    loop
        invariant
            m == w@.len(),
            last + m == h@.len(),
            h@ == hay@,
            w@ == needle@,
            i <= last,
            forall|k: int| 0 <= k < i ==> #[trigger] hay@.subrange(k, k + m) != needle@,
        decreases last - i,
    {
        if matches_at(&h, &w, i) {
            return true;
        }
        if i == last {
            assert forall|k: int|
                0 <= k && k + needle@.len() <= hay@.len() implies #[trigger] hay@.subrange(
                k,
                k + needle@.len(),
            ) != needle@ by {
                assert(k <= i);
            }
            return false;
        }
        i += 1;
    }
}

/// `s` with every `from` turned into `to`.
pub open spec fn swap_char(s: Seq<char>, from: char, to: char) -> Seq<char> {
    s.map_values(|c: char| if c == from { to } else { c })
}

/// Relies on `str::replace` with a `char` pattern: every occurrence of
/// `from` is replaced by `to`, and nothing else changes.
#[verifier::external_body]
pub(crate) fn replace_char(s: &str, from: char, to: char) -> (r: String)
    ensures
        r@ == swap_char(s@, from, to),
{
    s.replace(from, &to.to_string())
}

/// A path below `base`: the two joined by one `/`, unless `base` is empty
/// or already ends in one.
pub open spec fn joined(base: Seq<char>, child: Seq<char>) -> Seq<char> {
    if base.len() == 0 {
        child
    } else if base.last() == '/' {
        base + child
    } else {
        base + seq!['/'] + child
    }
}

pub fn join_path(base: &str, child: &str) -> (r: String)
    ensures
        r@ == joined(base@, child@),
{
    let n = base.unicode_len();
    if n == 0 {
        return child.to_string();
    }
    let mut r = base.to_string();
    if base.get_char(n - 1) != '/' {
        r.append("/");
        proof {
            reveal_strlit("/");
        }
    }
    r.append(child);
    r
}

/// `a` followed by `b`, as a new string.
pub fn concat(a: &str, b: &str) -> (r: String)
    ensures
        r@ == a@ + b@,
{
    let mut r = a.to_string();
    r.append(b);
    r
}

} // verus!

verus! {

/// The text of an optional string.
pub open spec fn opt_text(o: Option<String>) -> Option<Seq<char>> {
    match o {
        Some(s) => Some(s@),
        None => None,
    }
}

/// The texts of a sequence of strings.
pub open spec fn texts(v: Seq<String>) -> Seq<Seq<char>> {
    v.map_values(|s: String| s@)
}

/// Each item on a line of its own, as `  - item`.
pub open spec fn bullets(v: Seq<Seq<char>>) -> Seq<char>
    decreases v.len(),
{
    if v.len() == 0 {
        seq![]
    } else {
        bullets(v.drop_last()) + "  - "@ + v.last() + "\n"@
    }
}

pub fn bullet_list(v: &Vec<String>) -> (r: String)
    ensures
        r@ == bullets(texts(v@)),
{
    let ghost items = texts(v@);
    let mut r = String::new();
    let mut i: usize = 0;
    while i < v.len()
        invariant
            i <= v@.len(),
            items == texts(v@),
            r@ == bullets(items.subrange(0, i as int)),
        decreases v@.len() - i,
    {
        let ghost next = items.subrange(0, i + 1);
        assert(next.drop_last() =~= items.subrange(0, i as int));
        r.append("  - ");
        r.append(v[i].as_str());
        r.append("\n");
        i += 1;
    }
    assert(items.subrange(0, v@.len() as int) =~= items);
    r
}

} // verus!
