use vstd::prelude::*;

verus! {

/// The text made of `parts` with `sep` between each two consecutive parts.
pub open spec fn joined(parts: Seq<Seq<char>>, sep: Seq<char>) -> Seq<char>
    decreases parts.len(),
{
    if parts.len() == 0 {
        Seq::empty()
    } else if parts.len() == 1 {
        parts[0]
    } else {
        joined(parts.drop_last(), sep) + sep + parts.last()
    }
}

/// `text` begins with `prefix`.
pub open spec fn has_prefix(text: Seq<char>, prefix: Seq<char>) -> bool {
    prefix.len() <= text.len() && text.subrange(0, prefix.len() as int) == prefix
}

/// `text` with `prefix` taken off its front when it begins with it, else `text` itself.
pub open spec fn without_prefix(text: Seq<char>, prefix: Seq<char>) -> Seq<char> {
    if has_prefix(text, prefix) {
        text.subrange(prefix.len() as int, text.len() as int)
    } else {
        text
    }
}

/// `needle` occurs in `text` as a run of consecutive characters.
pub open spec fn contains_run(text: Seq<char>, needle: Seq<char>) -> bool {
    exists|i: int|
        0 <= i && i + needle.len() <= text.len() && #[trigger] text.subrange(i, i + needle.len())
            == needle
}

/// Appends one character to a string (`String::push`).
#[verifier::external_body]
fn push_char(s: &mut String, c: char)
    ensures
        final(s)@ == old(s)@.push(c),
{
    s.push(c);
}

/// The string that holds exactly the characters of `chars`.
pub fn string_from_chars(chars: &Vec<char>) -> (s: String)
    ensures
        s@ == chars@,
{
    let mut s = String::new();
    let mut i: usize = 0;
    while i < chars.len()
        invariant
            i <= chars.len(),
            s@ == chars@.subrange(0, i as int),
        decreases chars.len() - i,
    {
        push_char(&mut s, chars[i]);
        assert(chars@.subrange(0, i + 1) == chars@.subrange(0, i as int).push(chars@[i as int]));
        i = i + 1;
    }
    assert(chars@.subrange(0, chars.len() as int) == chars@);
    s
}

/// The characters of `s`, in order.
pub fn chars_of(s: &str) -> (v: Vec<char>)
    ensures
        v@ == s@,
{
    let n = s.unicode_len();
    let mut v: Vec<char> = Vec::new();
    let mut i: usize = 0;
    while i < n
        invariant
            n == s@.len(),
            i <= n,
            v@ == s@.subrange(0, i as int),
        decreases n - i,
    {
        v.push(s.get_char(i));
        assert(s@.subrange(0, i + 1) == s@.subrange(0, i as int).push(s@[i as int]));
        i = i + 1;
    }
    assert(s@.subrange(0, n as int) == s@);
    v
}

/// Whether `needle` occurs in `text` as a run of consecutive characters.
pub fn chars_contain_run(text: &Vec<char>, needle: &Vec<char>) -> (r: bool)
    ensures
        r == contains_run(text@, needle@),
{
    if needle.len() > text.len() {
        return false;
    }
    let last = text.len() - needle.len();
    let mut start: usize = 0;
    while start <= last
        invariant
            last + needle.len() == text.len(),
            start <= last + 1,
            forall|i: int|
                0 <= i < start ==> #[trigger] text@.subrange(i, i + needle.len()) != needle@,
        decreases last + 1 - start,
    {
        let mut j: usize = 0;
        let mut same = true;
        while j < needle.len()
            invariant
                start + needle.len() <= text.len(),
                j <= needle.len(),
                same == (forall|k: int| 0 <= k < j ==> text@[start + k] == needle@[k]),
            decreases needle.len() - j,
        {
            if text[start + j] != needle[j] {
                same = false;
            }
            j = j + 1;
        }
        if same {
            assert(text@.subrange(start as int, start + needle.len()) =~= needle@);
            return true;
        }
        assert(text@.subrange(start as int, start + needle.len()) != needle@) by {
            let k = choose|k: int| 0 <= k < needle.len() && text@[start + k] != needle@[k];
            assert(text@.subrange(start as int, start + needle.len())[k] == text@[start + k]);
        }
        start = start + 1;
    }
    assert forall|i: int|
        0 <= i && i + needle@.len() <= text@.len() implies #[trigger] text@.subrange(
        i,
        i + needle@.len(),
    ) != needle@ by {}
    false
}

/// `text` with `prefix` taken off its front when it begins with it (`str::strip_prefix`,
/// keeping `text` where it does not).
pub fn strip_prefix_or_keep(text: &str, prefix: &str) -> (r: String)
    ensures
        r@ == without_prefix(text@, prefix@),
{
    let n = text.unicode_len();
    let p = prefix.unicode_len();
    if p > n {
        return String::from_str(text);
    }
    let mut i: usize = 0;
    while i < p
        invariant
            n == text@.len(),
            p == prefix@.len(),
            p <= n,
            i <= p,
            forall|j: int| 0 <= j < i ==> text@[j] == prefix@[j],
        decreases p - i,
    {
        if text.get_char(i) != prefix.get_char(i) {
            assert(text@.subrange(0, p as int)[i as int] != prefix@[i as int]);
            return String::from_str(text);
        }
        i = i + 1;
    }
    assert(text@.subrange(0, p as int) =~= prefix@);
    String::from_str(text.substring_char(p, n))
}

/// Whether `list` holds a string equal to `s`.
pub fn strings_contain(list: &Vec<String>, s: &String) -> (r: bool)
    ensures
        r == list.deep_view().contains(s@),
{
    let mut i: usize = 0;
    while i < list.len()
        invariant
            i <= list.len(),
            forall|j: int| 0 <= j < i ==> list.deep_view()[j] != s@,
        decreases list.len() - i,
    {
        if list[i] == *s {
            assert(list.deep_view()[i as int] == s@);
            return true;
        }
        i = i + 1;
    }
    false
}

/// A copy of `list`.
pub fn copy_strings(list: &Vec<String>) -> (r: Vec<String>)
    ensures
        r.deep_view() == list.deep_view(),
{
    let mut r: Vec<String> = Vec::new();
    let mut i: usize = 0;
    while i < list.len()
        invariant
            i <= list.len(),
            r.deep_view() == list.deep_view().subrange(0, i as int),
        decreases list.len() - i,
    {
        let item = list[i].clone();
        assert(item@ == list.deep_view()[i as int]);
        let ghost before = r.deep_view();
        r.push(item);
        assert(r.deep_view() =~= before.push(item@));
        assert(r.deep_view() =~= list.deep_view().subrange(0, i + 1));
        i = i + 1;
    }
    assert(list.deep_view().subrange(0, list.len() as int) =~= list.deep_view());
    r
}

/// The strings of `parts` with `sep` between each two consecutive ones (`[String]::join`).
pub fn join_strings(parts: &Vec<String>, sep: &str) -> (r: String)
    ensures
        r@ == joined(parts.deep_view(), sep@),
{
    let mut r = String::new();
    let mut i: usize = 0;
    while i < parts.len()
        invariant
            i <= parts.len(),
            r@ == joined(parts.deep_view().subrange(0, i as int), sep@),
        decreases parts.len() - i,
    {
        let ghost before = parts.deep_view().subrange(0, i as int);
        let ghost after = parts.deep_view().subrange(0, i + 1);
        assert(after.drop_last() =~= before);
        assert(after.last() == parts[i as int]@);
        if i > 0 {
            r.append(sep);
        } else {
            assert(before.len() == 0);
        }
        r.append(parts[i].as_str());
        i = i + 1;
    }
    assert(parts.deep_view().subrange(0, parts.len() as int) =~= parts.deep_view());
    r
}

/// Whether `a` and `b` hold equal strings in the same order.
pub fn strings_equal(a: &Vec<String>, b: &Vec<String>) -> (r: bool)
    ensures
        r == (a.deep_view() == b.deep_view()),
{
    if a.len() != b.len() {
        assert(a.deep_view().len() != b.deep_view().len());
        return false;
    }
    let mut i: usize = 0;
    while i < a.len()
        invariant
            a.len() == b.len(),
            i <= a.len(),
            forall|j: int| 0 <= j < i ==> a.deep_view()[j] == b.deep_view()[j],
        decreases a.len() - i,
    {
        if a[i] != b[i] {
            assert(a.deep_view()[i as int] != b.deep_view()[i as int]);
            return false;
        }
        i = i + 1;
    }
    assert(a.deep_view() =~= b.deep_view());
    true
}

} // verus!
