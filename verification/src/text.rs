//! Text primitives shared by the whole library: trimming, joining, decimal
//! numbers and the order of names.

use vstd::prelude::*;
use vstd::string::*;

verus! {

/// The characters with the Unicode `White_Space` property.
pub open spec fn white_space(c: char) -> bool {
    let code = c as u32;
    ||| 0x9 <= code <= 0xd
    ||| code == 0x20
    ||| code == 0x85
    ||| code == 0xa0
    ||| code == 0x1680
    ||| 0x2000 <= code <= 0x200a
    ||| code == 0x2028
    ||| code == 0x2029
    ||| code == 0x202f
    ||| code == 0x205f
    ||| code == 0x3000
}

/// `s` without the white space at its front.
pub open spec fn trimmed_front(s: Seq<char>) -> Seq<char>
    decreases s.len(),
{
    if s.len() > 0 && white_space(s[0]) {
        trimmed_front(s.drop_first())
    } else {
        s
    }
}

/// `s` without the white space at its back.
pub open spec fn trimmed_back(s: Seq<char>) -> Seq<char>
    decreases s.len(),
{
    if s.len() > 0 && white_space(s.last()) {
        trimmed_back(s.drop_last())
    } else {
        s
    }
}

/// `s` without the white space at either end.
pub open spec fn trimmed(s: Seq<char>) -> Seq<char> {
    trimmed_back(trimmed_front(s))
}

/// The texts of a sequence, each followed by `separator` but for the last.
pub open spec fn joined(parts: Seq<Seq<char>>, separator: Seq<char>) -> Seq<char>
    decreases parts.len(),
{
    if parts.len() == 0 {
        Seq::empty()
    } else if parts.len() == 1 {
        parts[0]
    } else {
        joined(parts.drop_last(), separator) + separator + parts.last()
    }
}

/// The texts of a sequence, one after the other.
pub open spec fn concatenated(parts: Seq<Seq<char>>) -> Seq<char>
    decreases parts.len(),
{
    if parts.len() == 0 {
        Seq::empty()
    } else {
        concatenated(parts.drop_last()) + parts.last()
    }
}

/// One more part adds its text at the end.
pub proof fn lemma_concatenated_step(front: Seq<char>, parts: Seq<Seq<char>>, i: int)
    requires
        0 <= i < parts.len(),
    ensures
        front + concatenated(parts.take(i)) + parts[i] == front + concatenated(parts.take(i + 1)),
{
    assert(parts.take(i + 1).drop_last() =~= parts.take(i));
    assert(front + concatenated(parts.take(i)) + parts[i] =~= front + concatenated(
        parts.take(i + 1),
    ));
}

/// The character that stands for one decimal digit.
pub open spec fn digit(d: nat) -> char {
    (('0' as u32) + d) as char
}

/// `n` in decimal notation, without leading zeros.
pub open spec fn decimal(n: nat) -> Seq<char>
    decreases n,
{
    if n < 10 {
        seq![digit(n)]
    } else {
        decimal(n / 10).push(digit(n % 10))
    }
}

/// Whether `a` comes before `b` in the lexicographic order of their
/// characters, which is also the order of their UTF-8 bytes.
#[verifier::opaque]
pub open spec fn text_before(a: Seq<char>, b: Seq<char>) -> bool
    decreases a.len(),
{
    if b.len() == 0 {
        false
    } else if a.len() == 0 {
        true
    } else if a[0] != b[0] {
        (a[0] as int) < (b[0] as int)
    } else {
        text_before(a.drop_first(), b.drop_first())
    }
}

/// `std`'s `String::push`: the character goes to the end of the text.
pub assume_specification[ String::push ](s: &mut String, c: char)
    ensures
        final(s)@ == old(s)@.push(c),
;

/// Whether `c` is white space.
pub fn is_white_space(c: char) -> (r: bool)
    ensures
        r == white_space(c),
{
    let code: u32 = c as u32;
    (0x9 <= code && code <= 0xd) || code == 0x20 || code == 0x85 || code == 0xa0 || code == 0x1680
        || (0x2000 <= code && code <= 0x200a) || code == 0x2028 || code == 0x2029 || code == 0x202f
        || code == 0x205f || code == 0x3000
}

/// The characters of `text`, in order.
pub fn characters(text: &str) -> (r: Vec<char>)
    ensures
        r@ == text@,
{
    let mut chars: Vec<char> = Vec::new();
    for c in it: text.chars()
        invariant
            it.seq() == text@,
            chars@ == text@.take(it.index() as int),
    {
        chars.push(c);
        proof {
            assert(text@.take(it.index() as int + 1) =~= text@.take(it.index() as int).push(c));
        }
    }
    proof {
        assert(text@.take(text@.len() as int) =~= text@);
    }
    chars
}

proof fn lemma_trimmed_front_skips(s: Seq<char>, n: int)
    requires
        0 <= n <= s.len(),
        forall|i: int| 0 <= i < n ==> white_space(#[trigger] s[i]),
    ensures
        trimmed_front(s) == trimmed_front(s.skip(n)),
    decreases n,
{
    if n == 0 {
        assert(s.skip(0) =~= s);
    } else {
        assert(white_space(s[0]));
        let rest = s.drop_first();
        assert forall|i: int| 0 <= i < n - 1 implies white_space(#[trigger] rest[i]) by {
            assert(rest[i] == s[i + 1]);
        }
        lemma_trimmed_front_skips(rest, n - 1);
        assert(rest.skip(n - 1) =~= s.skip(n));
    }
}

proof fn lemma_trimmed_back_drops(s: Seq<char>, n: int)
    requires
        0 <= n <= s.len(),
        forall|i: int| n <= i < s.len() ==> white_space(#[trigger] s[i]),
    ensures
        trimmed_back(s) == trimmed_back(s.take(n)),
    decreases s.len() - n,
{
    if n == s.len() {
        assert(s.take(n) =~= s);
    } else {
        assert(white_space(s.last()));
        let rest = s.drop_last();
        lemma_trimmed_back_drops(rest, n);
        assert(rest.take(n) =~= s.take(n));
    }
}

/// `text` without the white space at either end.
pub fn trim(text: &str) -> (r: &str)
    ensures
        r@ == trimmed(text@),
{
    let chars = characters(text);
    let len: usize = chars.len();
    let mut start: usize = 0;
    while start < len && is_white_space(chars[start])
        invariant
            len == chars@.len(),
            chars@ == text@,
            start <= len,
            forall|i: int| 0 <= i < start ==> white_space(#[trigger] text@[i]),
        decreases len - start,
    {
        start = start + 1;
    }
    let mut end: usize = len;
    while start < end && is_white_space(chars[end - 1])
        invariant
            len == chars@.len(),
            chars@ == text@,
            start <= end <= len,
            forall|i: int| end <= i < len ==> white_space(#[trigger] text@[i]),
        decreases end,
    {
        end = end - 1;
    }
    proof {
        let front = text@.skip(start as int);
        lemma_trimmed_front_skips(text@, start as int);
        assert(trimmed_front(text@) == front);
        assert forall|i: int| end - start <= i < front.len() implies white_space(#[trigger] front[i]) by {
            assert(front[i] == text@[i + start]);
        }
        lemma_trimmed_back_drops(front, end - start);
        assert(front.take(end - start) =~= text@.subrange(start as int, end as int));
    }
    text.substring_char(start, end)
}

/// What is left of an optional text once it is trimmed, if anything.
pub open spec fn normalized(text: Option<Seq<char>>) -> Option<Seq<char>> {
    match text {
        Some(t) => if trimmed(t).len() == 0 {
            None
        } else {
            Some(trimmed(t))
        },
        None => None,
    }
}

/// A terminal title without surrounding white space; a blank title is none.
pub fn normalize_terminal_title(title: Option<&str>) -> (r: Option<String>)
    ensures
        r.deep_view() == normalized(title.deep_view()),
{
    normalize_profile_text(title)
}

/// Profile metadata without surrounding white space; a blank text is none.
pub fn normalize_profile_text(text: Option<&str>) -> (r: Option<String>)
    ensures
        r.deep_view() == normalized(text.deep_view()),
{
    match text {
        Some(text) => {
            let text = trim(text);
            if text.is_empty() {
                None
            } else {
                Some(text.to_owned())
            }
        },
        None => None,
    }
}

/// `n` in decimal notation.
pub fn decimal_text(n: u128) -> (r: String)
    ensures
        r@ == decimal(n as nat),
    decreases n,
{
    let last: u128 = n % 10;
    let mut text = if n < 10 {
        String::new()
    } else {
        decimal_text(n / 10)
    };
    text.push(digit_char(last));
    text
}

fn digit_char(d: u128) -> (r: char)
    requires
        d < 10,
    ensures
        r == digit(d as nat),
{
    match d {
        0 => '0',
        1 => '1',
        2 => '2',
        3 => '3',
        4 => '4',
        5 => '5',
        6 => '6',
        7 => '7',
        8 => '8',
        _ => '9',
    }
}

/// The texts of `parts`, each followed by `separator` but for the last.
pub fn join(parts: &Vec<String>, separator: &str) -> (r: String)
    ensures
        r@ == joined(parts.deep_view(), separator@),
{
    let mut out = String::new();
    let mut i: usize = 0;
    proof {
        assert(parts.deep_view().take(0) =~= Seq::<Seq<char>>::empty());
    }
    while i < parts.len()
        invariant
            i <= parts@.len(),
            out@ == joined(parts.deep_view().take(i as int), separator@),
        decreases parts@.len() - i,
    {
        let ghost before = parts.deep_view().take(i as int);
        let ghost after = parts.deep_view().take(i + 1);
        proof {
            assert(after.drop_last() =~= before);
            assert(after.last() == parts@[i as int]@);
            if i == 0 {
                assert(out@ + after.last() =~= after[0]);
            }
        }
        if i > 0 {
            out.append(separator);
        }
        out.append(parts[i].as_str());
        i = i + 1;
    }
    proof {
        assert(parts.deep_view().take(parts@.len() as int) =~= parts.deep_view());
    }
    out
}

/// Whether `a` comes before `b` in the order of names.
pub fn comes_before(a: &str, b: &str) -> (r: bool)
    ensures
        r == text_before(a@, b@),
{
    let left = characters(a);
    let right = characters(b);
    let mut i: usize = 0;
    proof {
        reveal(text_before);
        assert(a@.skip(0) =~= a@);
        assert(b@.skip(0) =~= b@);
    }
    while i < left.len() && i < right.len()
        invariant
            left@ == a@,
            right@ == b@,
            i <= left@.len(),
            i <= right@.len(),
            text_before(a@, b@) == text_before(a@.skip(i as int), b@.skip(i as int)),
        decreases left@.len() - i,
    {
        let ghost rest_a = a@.skip(i as int);
        let ghost rest_b = b@.skip(i as int);
        proof {
            reveal(text_before);
        }
        if left[i] != right[i] {
            let l: char = left[i];
            let r: char = right[i];
            return l < r;
        }
        proof {
            assert(rest_a.drop_first() =~= a@.skip(i + 1));
            assert(rest_b.drop_first() =~= b@.skip(i + 1));
        }
        i = i + 1;
    }
    proof {
        reveal(text_before);
    }
    i < right.len()
}

/// Copies of texts, in order.
pub fn copy_texts(texts: &Vec<String>) -> (r: Vec<String>)
    ensures
        r.deep_view() == texts.deep_view(),
{
    let r = texts.clone();
    proof {
        assert(r.deep_view() =~= texts.deep_view());
    }
    r
}

/// A copy of an optional text.
pub fn copy_text(text: &Option<String>) -> (r: Option<String>)
    ensures
        r.deep_view() == text.deep_view(),
{
    match text {
        Some(text) => Some(text.clone()),
        None => None,
    }
}

/// Whether `text` is one of `texts`.
pub fn contains_text(texts: &Vec<String>, text: &String) -> (r: bool)
    ensures
        r == texts.deep_view().contains(text@),
{
    let mut i: usize = 0;
    while i < texts.len()
        invariant
            i <= texts@.len(),
            forall|j: int| 0 <= j < i ==> #[trigger] texts.deep_view()[j] != text@,
        decreases texts@.len() - i,
    {
        if texts[i] == *text {
            proof {
                assert(texts.deep_view()[i as int] == text@);
            }
            return true;
        }
        i = i + 1;
    }
    false
}

/// An optional text, borrowed.
pub fn option_str(text: &Option<String>) -> (r: Option<&str>)
    ensures
        r.deep_view() == text.deep_view(),
{
    match text {
        Some(text) => Some(text.as_str()),
        None => None,
    }
}

/// Whether two texts are the same.
pub fn same_text(a: &str, b: &str) -> (r: bool)
    ensures
        r == (a@ == b@),
{
    a.to_owned() == b.to_owned()
}

/// How `std` writes a text with `{:?}`: in double quotes, with escapes.
pub uninterp spec fn quoted(text: Seq<char>) -> Seq<char>;

/// `std`'s `Debug` formatting of a text. The result is a function of the text
/// alone; which characters are escaped, and how, is left to `std`.
#[verifier::external_body]
pub(crate) fn quote(text: &str) -> (r: String)
    ensures
        r@ == quoted(text@),
{
    format!("{text:?}")
}

} // verus!
