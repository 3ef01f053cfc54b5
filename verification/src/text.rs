//! Operations on text as sequences of characters: whitespace, trimming,
//! line boundaries and comparison.

use vstd::prelude::*;

verus! {

/// Whether `c` carries the Unicode property White_Space.
pub open spec fn is_space(c: char) -> bool {
    let n = c as u32;
    ||| 0x09 <= n <= 0x0D
    ||| n == 0x20
    ||| n == 0x85
    ||| n == 0xA0
    ||| n == 0x1680
    ||| 0x2000 <= n <= 0x200A
    ||| n == 0x2028
    ||| n == 0x2029
    ||| n == 0x202F
    ||| n == 0x205F
    ||| n == 0x3000
}

/// `s` without its leading whitespace.
pub open spec fn trim_front(s: Seq<char>) -> Seq<char>
    decreases s.len(),
{
    if s.len() > 0 && is_space(s.first()) {
        trim_front(s.drop_first())
    } else {
        s
    }
}

/// `s` without its trailing whitespace.
pub open spec fn trim_back(s: Seq<char>) -> Seq<char>
    decreases s.len(),
{
    if s.len() > 0 && is_space(s.last()) {
        trim_back(s.drop_last())
    } else {
        s
    }
}

/// `s` without leading and trailing whitespace.
pub open spec fn trimmed(s: Seq<char>) -> Seq<char> {
    trim_back(trim_front(s))
}

/// The number of characters of `s` before its first line feed, or the
/// length of `s` where it holds none.
pub open spec fn line_len(s: Seq<char>) -> int
    decreases s.len(),
{
    if s.len() == 0 || s.first() == '\n' {
        0
    } else {
        1 + line_len(s.drop_first())
    }
}

/// Appends one character to a string, by `String::push`: the string
/// afterwards is the string before, followed by `c`.
#[verifier::external_body]
pub(crate) fn push_char(s: &mut String, c: char)
    ensures
        final(s)@ == old(s)@.push(c),
{
    s.push(c)
}

/// Whether `c` is whitespace.
pub fn is_whitespace(c: char) -> (b: bool)
    ensures
        b == is_space(c),
{
    let n: u32 = c as u32;
    (0x09 <= n && n <= 0x0D) || n == 0x20 || n == 0x85 || n == 0xA0 || n == 0x1680 || (0x2000 <= n
        && n <= 0x200A) || n == 0x2028 || n == 0x2029 || n == 0x202F || n == 0x205F || n == 0x3000
}

/// The characters of `s`, in order.
pub fn to_chars(s: &str) -> (chars: Vec<char>)
    ensures
        chars@ == s@,
{
    let mut chars: Vec<char> = Vec::new();
    for c in it: s.chars()
        invariant
            it.seq() == s@,
            chars@ == s@.take(it.index()),
    {
        chars.push(c);
    }
    chars
}

/// The text of `chars` from `lo` up to `hi`, as a string.
pub fn string_of(chars: &Vec<char>, lo: usize, hi: usize) -> (s: String)
    requires
        lo <= hi <= chars@.len(),
    ensures
        s@ == chars@.subrange(lo as int, hi as int),
{
    let mut s = String::new();
    let mut i: usize = lo;
    while i < hi
        invariant
            lo <= i <= hi <= chars@.len(),
            s@ == chars@.subrange(lo as int, i as int),
        decreases hi - i,
    {
        push_char(&mut s, chars[i]);
        i += 1;
        assert(s@ =~= chars@.subrange(lo as int, i as int));
    }
    s
}

/// Whether the text of `chars` from `lo` up to `hi` is `word`.
pub fn range_is(chars: &Vec<char>, lo: usize, hi: usize, word: &Vec<char>) -> (b: bool)
    requires
        lo <= hi <= chars@.len(),
    ensures
        b == (chars@.subrange(lo as int, hi as int) == word@),
{
    if hi - lo != word.len() {
        return false;
    }
    let ghost part = chars@.subrange(lo as int, hi as int);
    let mut i: usize = 0;
    while i < word.len()
        invariant
            lo <= hi <= chars@.len(),
            hi - lo == word@.len(),
            part == chars@.subrange(lo as int, hi as int),
            i <= word@.len(),
            forall|j: int| 0 <= j < i ==> part[j] == word@[j],
        decreases word@.len() - i,
    {
        if chars[lo + i] != word[i] {
            assert(part[i as int] != word@[i as int]);
            return false;
        }
        i += 1;
    }
    assert(part =~= word@);
    true
}

/// Whether the text of `chars` from `lo` up to `hi` begins with `word`.
pub fn range_starts_with(chars: &Vec<char>, lo: usize, hi: usize, word: &Vec<char>) -> (b: bool)
    requires
        lo <= hi <= chars@.len(),
    ensures
        b == word@.is_prefix_of(chars@.subrange(lo as int, hi as int)),
{
    if hi - lo < word.len() {
        return false;
    }
    let ghost part = chars@.subrange(lo as int, hi as int);
    let b = range_is(chars, lo, lo + word.len(), word);
    assert(part.subrange(0, word@.len() as int) =~= chars@.subrange(
        lo as int,
        lo + word@.len(),
    ));
    b
}

/// The bounds of the text between `lo` and `hi` once its leading and
/// trailing whitespace is left out.
pub fn trim_bounds(chars: &Vec<char>, lo: usize, hi: usize) -> (r: (usize, usize))
    requires
        lo <= hi <= chars@.len(),
    ensures
        lo <= r.0 <= r.1 <= hi,
        chars@.subrange(r.0 as int, r.1 as int) == trimmed(chars@.subrange(lo as int, hi as int)),
{
    let mut a: usize = lo;
    while a < hi && is_whitespace(chars[a])
        invariant
            lo <= a <= hi <= chars@.len(),
            trim_front(chars@.subrange(a as int, hi as int)) == trim_front(
                chars@.subrange(lo as int, hi as int),
            ),
        decreases hi - a,
    {
        assert(chars@.subrange(a as int, hi as int).drop_first() =~= chars@.subrange(
            a + 1,
            hi as int,
        ));
        a += 1;
    }
    let mut b: usize = hi;
    while a < b && is_whitespace(chars[b - 1])
        invariant
            a <= b <= hi <= chars@.len(),
            trim_back(chars@.subrange(a as int, b as int)) == trim_back(
                chars@.subrange(a as int, hi as int),
            ),
        decreases b - a,
    {
        assert(chars@.subrange(a as int, b as int).drop_last() =~= chars@.subrange(
            a as int,
            b - 1,
        ));
        b -= 1;
    }
    (a, b)
}

/// The position of the first line feed at or after `lo`, or the length of
/// `chars` where none follows.
pub fn find_line_end(chars: &Vec<char>, lo: usize) -> (end: usize)
    requires
        lo <= chars@.len(),
    ensures
        lo <= end <= chars@.len(),
        end - lo == line_len(chars@.subrange(lo as int, chars@.len() as int)),
{
    let n = chars.len();
    let mut i: usize = lo;
    while i < n && chars[i] != '\n'
        invariant
            n == chars@.len(),
            lo <= i <= n,
            line_len(chars@.subrange(lo as int, n as int)) == (i - lo) + line_len(
                chars@.subrange(i as int, n as int),
            ),
        decreases n - i,
    {
        assert(chars@.subrange(i as int, n as int).drop_first() =~= chars@.subrange(
            i + 1,
            n as int,
        ));
        i += 1;
    }
    i
}

/// Text that neither begins nor ends with whitespace is its own trimmed
/// form.
pub proof fn lemma_trimmed_fixed(s: Seq<char>)
    requires
        s.len() == 0 || (!is_space(s.first()) && !is_space(s.last())),
    ensures
        trimmed(s) == s,
{
}

/// Trimmed text is empty, or begins and ends with a character that is no
/// whitespace.
pub proof fn lemma_trimmed_edges(s: Seq<char>)
    ensures
        trimmed(s).len() == 0 || (!is_space(trimmed(s).first()) && !is_space(trimmed(s).last())),
        trimmed(s).len() <= s.len(),
{
    lemma_trim_front_edge(s);
    lemma_trim_back_edge(trim_front(s));
}

/// Text behind a prefix that neither begins nor ends with whitespace is
/// trimmed at its end only.
pub proof fn lemma_trimmed_behind_prefix(prefix: Seq<char>, text: Seq<char>)
    requires
        prefix.len() > 0,
        !is_space(prefix.first()),
        !is_space(prefix.last()),
    ensures
        trimmed(prefix + text) == prefix + trim_back(text),
    decreases text.len(),
{
    let whole = prefix + text;
    assert(whole.first() == prefix.first());
    assert(trim_front(whole) == whole);
    if text.len() == 0 {
        assert(whole =~= prefix);
        assert(prefix + trim_back(text) =~= prefix);
    } else if is_space(text.last()) {
        assert(whole.last() == text.last());
        assert(whole.drop_last() =~= prefix + text.drop_last());
        lemma_trimmed_behind_prefix(prefix, text.drop_last());
        assert(trim_front(prefix + text.drop_last()) == prefix + text.drop_last());
    } else {
        assert(whole.last() == text.last());
    }
}

proof fn lemma_trim_front_edge(s: Seq<char>)
    ensures
        trim_front(s).len() == 0 || !is_space(trim_front(s).first()),
        trim_front(s).len() <= s.len(),
    decreases s.len(),
{
    if s.len() > 0 && is_space(s.first()) {
        lemma_trim_front_edge(s.drop_first());
    }
}

proof fn lemma_trim_back_edge(s: Seq<char>)
    ensures
        trim_back(s).len() == 0 || !is_space(trim_back(s).last()),
        trim_back(s).len() == 0 || trim_back(s).first() == s.first(),
        trim_back(s).len() <= s.len(),
    decreases s.len(),
{
    if s.len() > 0 && is_space(s.last()) {
        lemma_trim_back_edge(s.drop_last());
    }
}

} // verus!
