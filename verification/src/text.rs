use vstd::prelude::*;

verus! {

/// The decimal digit of `d` (`d < 10`).
pub open spec fn digit_char(d: nat) -> char {
    if d == 0 { '0' }
    else if d == 1 { '1' }
    else if d == 2 { '2' }
    else if d == 3 { '3' }
    else if d == 4 { '4' }
    else if d == 5 { '5' }
    else if d == 6 { '6' }
    else if d == 7 { '7' }
    else if d == 8 { '8' }
    else { '9' }
}

/// The decimal notation of `n`, as `format!("{}", n)` writes it.
pub open spec fn decimal(n: nat) -> Seq<char>
    decreases n,
{
    if n < 10 {
        seq![digit_char(n)]
    } else {
        decimal(n / 10).push(digit_char(n % 10))
    }
}

/// `parts` joined by `sep`, as `[..].join(sep)` writes them.
pub open spec fn join(parts: Seq<Seq<char>>, sep: Seq<char>) -> Seq<char>
    decreases parts.len(),
{
    if parts.len() == 0 {
        Seq::empty()
    } else if parts.len() == 1 {
        parts[0]
    } else {
        join(parts.drop_last(), sep) + sep + parts.last()
    }
}

/// `needle` occurs in `hay` at position `i`.
pub open spec fn occurs_at(hay: Seq<char>, needle: Seq<char>, i: int) -> bool {
    0 <= i && i + needle.len() <= hay.len() && hay.subrange(i, i + needle.len()) == needle
}

/// `needle` occurs somewhere in `hay` (the empty string occurs everywhere).
pub open spec fn has_substring(hay: Seq<char>, needle: Seq<char>) -> bool {
    exists|i: int| occurs_at(hay, needle, i)
}

/// A text found in `hay` is still found when more text is put before or
/// after it.
pub proof fn lemma_substring_in_concat(pre: Seq<char>, hay: Seq<char>, post: Seq<char>, needle: Seq<char>)
    requires
        has_substring(hay, needle),
    ensures
        has_substring(pre + hay + post, needle),
{
    let i = choose|i: int| occurs_at(hay, needle, i);
    let whole = pre + hay + post;
    let j = pre.len() + i;
    assert(whole.subrange(j, j + needle.len()) =~= hay.subrange(i, i + needle.len()));
    assert(occurs_at(whole, needle, j));
}

/// A text is found in itself.
pub proof fn lemma_substring_of_itself(s: Seq<char>)
    ensures
        has_substring(s, s),
{
    assert(s.subrange(0, s.len() as int) =~= s);
    assert(occurs_at(s, s, 0));
}

/// Each part of a joined list of parts is found in the joined text.
pub proof fn lemma_join_holds_its_parts(parts: Seq<Seq<char>>, sep: Seq<char>, k: int)
    requires
        0 <= k < parts.len(),
    ensures
        has_substring(join(parts, sep), parts[k]),
    decreases parts.len(),
{
    if parts.len() == 1 {
        lemma_substring_of_itself(parts[0]);
    } else if k < parts.len() - 1 {
        lemma_join_holds_its_parts(parts.drop_last(), sep, k);
        assert(parts.drop_last()[k] == parts[k]);
        lemma_substring_in_concat(Seq::empty(), join(parts.drop_last(), sep), sep + parts.last(), parts[k]);
        assert(Seq::<char>::empty() + join(parts.drop_last(), sep) + (sep + parts.last()) =~= join(parts, sep));
    } else {
        lemma_substring_of_itself(parts.last());
        lemma_substring_in_concat(join(parts.drop_last(), sep) + sep, parts.last(), Seq::empty(), parts[k]);
        assert(join(parts.drop_last(), sep) + sep + parts.last() + Seq::<char>::empty() =~= join(parts, sep));
    }
}

/// What `str::to_lowercase` returns for a string.
pub uninterp spec fn lowercase_of(s: Seq<char>) -> Seq<char>;

/// Calls `str::to_lowercase`, which maps each character to its Unicode
/// lowercase form. Its result is named, not spelled out: the Unicode tables are
/// not restated here.
#[verifier::external_body]
pub fn to_lowercase(s: &str) -> (r: String)
    ensures
        r@ == lowercase_of(s@),
{
    s.to_lowercase()
}

/// A `String` holding the characters of `s`.
pub fn owned(s: &str) -> (r: String)
    ensures
        r@ == s@,
{
    String::from_str(s)
}

/// The characters of `s`.
pub fn chars_of(s: &str) -> (r: Vec<char>)
    ensures
        r@ == s@,
{
    let n = s.unicode_len();
    let mut r: Vec<char> = Vec::new();
    let mut i: usize = 0;
    while i < n
        invariant
            n == s@.len(),
            i <= n,
            r@ == s@.subrange(0, i as int),
        decreases n - i,
    {
        r.push(s.get_char(i));
        i = i + 1;
        assert(r@ =~= s@.subrange(0, i as int));
    }
    assert(r@ =~= s@);
    r
}

/// The characters `from..to` of `s`, as a `String`.
pub fn substring(s: &str, from: usize, to: usize) -> (r: String)
    requires
        from <= to <= s@.len(),
    ensures
        r@ == s@.subrange(from as int, to as int),
{
    String::from_str(s.substring_char(from, to))
}

/// The string of one decimal digit.
pub(crate) fn digit_str(d: u64) -> (r: &'static str)
    requires
        d < 10,
    ensures
        r@ == seq![digit_char(d as nat)],
{
    if d == 0 {
        proof { reveal_strlit("0"); }
        "0"
    } else if d == 1 {
        proof { reveal_strlit("1"); }
        "1"
    } else if d == 2 {
        proof { reveal_strlit("2"); }
        "2"
    } else if d == 3 {
        proof { reveal_strlit("3"); }
        "3"
    } else if d == 4 {
        proof { reveal_strlit("4"); }
        "4"
    } else if d == 5 {
        proof { reveal_strlit("5"); }
        "5"
    } else if d == 6 {
        proof { reveal_strlit("6"); }
        "6"
    } else if d == 7 {
        proof { reveal_strlit("7"); }
        "7"
    } else if d == 8 {
        proof { reveal_strlit("8"); }
        "8"
    } else {
        proof { reveal_strlit("9"); }
        "9"
    }
}

/// The decimal notation of `n`.
pub fn u64_to_decimal(n: u64) -> (r: String)
    ensures
        r@ == decimal(n as nat),
    decreases n,
{
    if n < 10 {
        owned(digit_str(n))
    } else {
        let mut r = u64_to_decimal(n / 10);
        r.append(digit_str(n % 10));
        r
    }
}

/// Appends the characters of `t` to `s`.
pub fn push_str(s: &mut String, t: &str)
    ensures
        final(s)@ == old(s)@ + t@,
{
    s.append(t);
}

/// `parts` joined by `sep`.
pub fn join_strings(parts: &Vec<String>, sep: &str) -> (r: String)
    ensures
        r@ == join(parts.deep_view(), sep@),
{
    let ghost dv = parts.deep_view();
    let mut r = String::new();
    let mut i: usize = 0;
    while i < parts.len()
        invariant
            i <= parts.len(),
            dv == parts.deep_view(),
            dv.len() == parts.len(),
            forall|k: int| 0 <= k < parts.len() ==> #[trigger] dv[k] == parts@[k]@,
            r@ == join(dv.take(i as int), sep@),
        decreases parts.len() - i,
    {
        if i != 0 {
            r.append(sep);
        }
        r.append(parts[i].as_str());
        assert(dv.take((i + 1) as int).drop_last() =~= dv.take(i as int));
        i = i + 1;
    }
    assert(dv.take(parts.len() as int) =~= dv);
    r
}

/// Whether `needle` occurs at position `i` of `hay`.
fn matches_at(hay: &Vec<char>, needle: &Vec<char>, i: usize) -> (r: bool)
    requires
        i + needle@.len() <= hay@.len(),
    ensures
        r == occurs_at(hay@, needle@, i as int),
{
    let hay_len = hay.len();
    let mut j: usize = 0;
    while j < needle.len()
        invariant
            i + needle@.len() <= hay@.len(),
            hay@.len() == hay_len,
            j <= needle@.len(),
            forall|k: int| 0 <= k < j ==> hay@[i + k] == needle@[k],
        decreases needle.len() - j,
    {
        if hay[i + j] != needle[j] {
            assert(hay@.subrange(i as int, i + needle@.len())[j as int] != needle@[j as int]);
            return false;
        }
        j = j + 1;
    }
    assert(hay@.subrange(i as int, i + needle@.len()) =~= needle@);
    true
}

/// The first position at which `needle` occurs in `hay`.
pub fn find_first(hay: &str, needle: &str) -> (r: Option<usize>)
    ensures
        r matches Some(i) ==> occurs_at(hay@, needle@, i as int)
            && forall|j: int| 0 <= j < i ==> !occurs_at(hay@, needle@, j),
        r is None ==> !has_substring(hay@, needle@),
{
    let h = chars_of(hay);
    let n = chars_of(needle);
    if n.len() > h.len() {
        return None;
    }
    let last = h.len() - n.len();
    let mut i: usize = 0;
    loop
        invariant
            h@ == hay@,
            n@ == needle@,
            last + n@.len() == h@.len(),
            i <= last,
            forall|j: int| 0 <= j < i ==> !occurs_at(hay@, needle@, j),
        decreases last - i,
    {
        if matches_at(&h, &n, i) {
            return Some(i);
        }
        if i == last {
            assert forall|j: int| !occurs_at(hay@, needle@, j) by {
                if occurs_at(hay@, needle@, j) {
                    assert(j <= last);
                }
            }
            return None;
        }
        i = i + 1;
    }
}

/// Whether `hay` begins with `prefix`.
pub fn starts_with(hay: &str, prefix: &str) -> (r: bool)
    ensures
        r == (prefix@.len() <= hay@.len() && hay@.take(prefix@.len() as int) == prefix@),
{
    let h = chars_of(hay);
    let p = chars_of(prefix);
    if p.len() > h.len() {
        return false;
    }
    let r = matches_at(&h, &p, 0);
    assert(hay@.subrange(0, prefix@.len() as int) =~= hay@.take(prefix@.len() as int));
    r
}

/// Whether `needle` occurs in `hay`.
pub fn contains(hay: &str, needle: &str) -> (r: bool)
    ensures
        r == has_substring(hay@, needle@),
{
    match find_first(hay, needle) {
        Some(i) => {
            assert(occurs_at(hay@, needle@, i as int));
            true
        },
        None => false,
    }
}

} // verus!
