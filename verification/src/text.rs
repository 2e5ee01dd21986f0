//! Character sequences: the bridge between `str`/`String` and the
//! `Seq<char>` model that every contract of this crate speaks of.
//!
//! Executable code works on `Vec<char>`; a `String` is only taken apart at
//! the entry of a function and put together at its exit.

use vstd::prelude::*;

verus! {

/// `String::push` appends exactly one character.
pub assume_specification[ String::push ](s: &mut String, ch: char)
    ensures
        final(s)@ == old(s)@.push(ch),
;

/// The lower-case form of a text as Unicode defines it.
pub uninterp spec fn lowercase_of(text: Seq<char>) -> Seq<char>;

/// `str::to_lowercase`: the lower-case equivalent of the text.
#[verifier::external_body]
pub(crate) fn lowercase(text: &str) -> (r: String)
    ensures
        r@ == lowercase_of(text@),
{
    text.to_lowercase()
}

/// The texts held by a sequence of strings.
pub open spec fn texts(v: Seq<String>) -> Seq<Seq<char>> {
    Seq::new(v.len(), |i: int| v[i]@)
}

/// The texts held by a sequence of character vectors.
pub open spec fn rows(v: Seq<Vec<char>>) -> Seq<Seq<char>> {
    Seq::new(v.len(), |i: int| v[i]@)
}

/// White space as Unicode defines it (the `White_Space` property).
pub open spec fn is_space(c: char) -> bool {
    let n = c as u32;
    ||| 0x09 <= n <= 0x0D
    ||| n == 0x20
    ||| n == 0x85
    ||| n == 0xA0
    ||| n == 0x1680
    ||| 0x2000 <= n <= 0x200A
    ||| n == 0x2028
    ||| n == 0x2029
    ||| n == 0x202F
    ||| n == 0x205F
    ||| n == 0x3000
}

/// An ASCII letter, upper or lower case.
pub open spec fn is_ascii_letter(c: char) -> bool {
    ('a' <= c && c <= 'z') || ('A' <= c && c <= 'Z')
}

/// The first index at or after `i` that holds no white space (`s.len()` if
/// there is none).
pub open spec fn skip_spaces(s: Seq<char>, i: int) -> int
    decreases s.len() - i,
{
    if 0 <= i < s.len() && is_space(s[i]) {
        skip_spaces(s, i + 1)
    } else {
        i
    }
}

/// The end of the text that is left of `s.take(j)` once trailing white
/// space is dropped.
pub open spec fn drop_spaces_back(s: Seq<char>, j: int) -> int
    decreases j,
{
    if 0 < j <= s.len() && is_space(s[j - 1]) {
        drop_spaces_back(s, j - 1)
    } else {
        j
    }
}

/// `s` without leading and trailing white space.
pub open spec fn trimmed(s: Seq<char>) -> Seq<char> {
    let a = skip_spaces(s, 0);
    let b = drop_spaces_back(s, s.len() as int);
    if a < b {
        s.subrange(a, b)
    } else {
        Seq::empty()
    }
}

/// The end of the text that is left of `s.take(j)` once every trailing `c`
/// is dropped.
pub open spec fn drop_back(s: Seq<char>, c: char, j: int) -> int
    decreases j,
{
    if 0 < j <= s.len() && s[j - 1] == c {
        drop_back(s, c, j - 1)
    } else {
        j
    }
}

/// `s` without its trailing run of `c`.
pub open spec fn without_trailing(s: Seq<char>, c: char) -> Seq<char> {
    s.take(drop_back(s, c, s.len() as int))
}

/// The index of the first `c` at or after `i`, or `s.len()`.
pub open spec fn find_from(s: Seq<char>, c: char, i: int) -> int
    decreases s.len() - i,
{
    if 0 <= i < s.len() && s[i] != c {
        find_from(s, c, i + 1)
    } else if i < s.len() {
        i
    } else {
        s.len() as int
    }
}

/// One past the index of the last `c` before `j`, or 0 when there is none.
pub open spec fn rfind_before(s: Seq<char>, c: char, j: int) -> int
    decreases j,
{
    if 0 < j <= s.len() && s[j - 1] != c {
        rfind_before(s, c, j - 1)
    } else if j > 0 {
        j
    } else {
        0
    }
}

/// `s` with every `from` replaced by `to`.
pub open spec fn replaced(s: Seq<char>, from: char, to: char) -> Seq<char> {
    Seq::new(s.len(), |i: int| if s[i] == from { to } else { s[i] })
}

/// The words of `s` from index `i` on, `cur` being the word under way:
/// maximal runs of characters that are not white space.
pub open spec fn words_from(s: Seq<char>, i: int, cur: Seq<char>) -> Seq<Seq<char>>
    decreases s.len() - i,
{
    let done = if cur.len() > 0 { seq![cur] } else { Seq::empty() };
    if i < 0 || i >= s.len() {
        done
    } else if is_space(s[i]) {
        done + words_from(s, i + 1, Seq::empty())
    } else {
        words_from(s, i + 1, cur.push(s[i]))
    }
}

/// The words of `s`: what is left when `s` is cut at white space.
pub open spec fn words(s: Seq<char>) -> Seq<Seq<char>> {
    words_from(s, 0, Seq::empty())
}

/// The character for a decimal digit.
pub open spec fn digit(d: int) -> char {
    if d == 0 {
        '0'
    } else if d == 1 {
        '1'
    } else if d == 2 {
        '2'
    } else if d == 3 {
        '3'
    } else if d == 4 {
        '4'
    } else if d == 5 {
        '5'
    } else if d == 6 {
        '6'
    } else if d == 7 {
        '7'
    } else if d == 8 {
        '8'
    } else {
        '9'
    }
}

/// `n` written in decimal, without leading zeros.
pub open spec fn decimal(n: nat) -> Seq<char>
    decreases n,
{
    if n < 10 {
        seq![digit(n as int)]
    } else {
        decimal(n / 10).push(digit((n % 10) as int))
    }
}

/// The characters of `s`, in order.
pub fn chars_of(s: &str) -> (v: Vec<char>)
    ensures
        v@ == s@,
{
    let mut v: Vec<char> = Vec::new();
    for c in it: s.chars()
        invariant
            v@ == it.seq().take(it.index()),
    {
        v.push(c);
    }
    v
}

/// A `String` holding exactly the characters of `v`.
pub fn string_of(v: &Vec<char>) -> (s: String)
    ensures
        s@ == v@,
{
    let mut s = String::new();
    let mut i: usize = 0;
    while i < v.len()
        invariant
            i <= v.len(),
            s@ == v@.take(i as int),
        decreases v.len() - i,
    {
        s.push(v[i]);
        i = i + 1;
    }
    s
}

/// Whether `c` is white space.
pub fn is_whitespace(c: char) -> (r: bool)
    ensures
        r == is_space(c),
{
    let n: u32 = c as u32;
    (0x09 <= n && n <= 0x0D) || n == 0x20 || n == 0x85 || n == 0xA0 || n == 0x1680 || (0x2000 <= n
        && n <= 0x200A) || n == 0x2028 || n == 0x2029 || n == 0x202F || n == 0x205F || n == 0x3000
}

/// Whether `c` is an ASCII letter.
pub fn is_letter(c: char) -> (r: bool)
    ensures
        r == is_ascii_letter(c),
{
    ('a' <= c && c <= 'z') || ('A' <= c && c <= 'Z')
}

/// The part of `v` from `a` up to `b`.
pub fn slice_of(v: &Vec<char>, a: usize, b: usize) -> (r: Vec<char>)
    requires
        a <= b <= v.len(),
    ensures
        r@ == v@.subrange(a as int, b as int),
{
    let mut r: Vec<char> = Vec::new();
    let mut i: usize = a;
    while i < b
        invariant
            a <= i <= b <= v.len(),
            r@ == v@.subrange(a as int, i as int),
        decreases b - i,
    {
        r.push(v[i]);
        i = i + 1;
    }
    r
}

/// Appends the characters of `tail` to `out`.
pub fn append(out: &mut Vec<char>, tail: &Vec<char>)
    ensures
        final(out)@ == old(out)@ + tail@,
{
    let mut i: usize = 0;
    while i < tail.len()
        invariant
            i <= tail.len(),
            out@ == old(out)@ + tail@.take(i as int),
        decreases tail.len() - i,
    {
        out.push(tail[i]);
        i = i + 1;
    }
}

/// Appends the characters of `tail` to `out`.
pub fn append_str(out: &mut Vec<char>, tail: &str)
    ensures
        final(out)@ == old(out)@ + tail@,
{
    let t = chars_of(tail);
    append(out, &t);
}

/// Whether two texts hold the same characters.
pub fn same_chars(a: &Vec<char>, b: &Vec<char>) -> (r: bool)
    ensures
        r == (a@ == b@),
{
    if a.len() != b.len() {
        return false;
    }
    let mut i: usize = 0;
    while i < a.len()
        invariant
            i <= a.len(),
            a.len() == b.len(),
            a@.take(i as int) == b@.take(i as int),
        decreases a.len() - i,
    {
        if a[i] != b[i] {
            return false;
        }
        i = i + 1;
    }
    assert(a@ == a@.take(a.len() as int));
    assert(b@ == b@.take(b.len() as int));
    true
}

/// Whether `v` holds exactly the characters of `s`.
pub fn is_text(v: &Vec<char>, s: &str) -> (r: bool)
    ensures
        r == (v@ == s@),
{
    let t = chars_of(s);
    same_chars(v, &t)
}

/// Whether `v` begins with `p`.
pub fn starts_with(v: &Vec<char>, p: &str) -> (r: bool)
    ensures
        r == p@.is_prefix_of(v@),
{
    let t = chars_of(p);
    if t.len() > v.len() {
        return false;
    }
    let head = slice_of(v, 0, t.len());
    same_chars(&head, &t)
}

/// `v` without leading and trailing white space.
pub fn trim(v: &Vec<char>) -> (r: Vec<char>)
    ensures
        r@ == trimmed(v@),
{
    let mut a: usize = 0;
    while a < v.len() && is_whitespace(v[a])
        invariant
            a <= v.len(),
            skip_spaces(v@, 0) == skip_spaces(v@, a as int),
        decreases v.len() - a,
    {
        a = a + 1;
    }
    let mut b: usize = v.len();
    while b > 0 && is_whitespace(v[b - 1])
        invariant
            b <= v.len(),
            drop_spaces_back(v@, v.len() as int) == drop_spaces_back(v@, b as int),
        decreases b,
    {
        b = b - 1;
    }
    if a < b {
        slice_of(v, a, b)
    } else {
        Vec::new()
    }
}

/// `v` without its trailing run of `c`.
pub fn trim_trailing(v: &Vec<char>, c: char) -> (r: Vec<char>)
    ensures
        r@ == without_trailing(v@, c),
{
    let mut b: usize = v.len();
    while b > 0 && v[b - 1] == c
        invariant
            b <= v.len(),
            drop_back(v@, c, v.len() as int) == drop_back(v@, c, b as int),
        decreases b,
    {
        b = b - 1;
    }
    slice_of(v, 0, b)
}

/// The words of `v`: what is left when it is cut at white space.
pub fn split_words(v: &Vec<char>) -> (r: Vec<Vec<char>>)
    ensures
        rows(r@) == words(v@),
{
    let mut out: Vec<Vec<char>> = Vec::new();
    let mut cur: Vec<char> = Vec::new();
    let mut i: usize = 0;
    while i < v.len()
        invariant
            i <= v.len(),
            words(v@) == rows(out@) + words_from(v@, i as int, cur@),
        decreases v.len() - i,
    {
        let c = v[i];
        if is_whitespace(c) {
            if cur.len() > 0 {
                out.push(cur);
                cur = Vec::new();
            } else {
                assert(cur@ == Seq::<char>::empty());
            }
        } else {
            cur.push(c);
        }
        i = i + 1;
    }
    if cur.len() > 0 {
        out.push(cur);
    }
    out
}

/// The character for the decimal digit `d`.
fn digit_char(d: u64) -> (c: char)
    requires
        d < 10,
    ensures
        c == digit(d as int),
{
    if d == 0 {
        '0'
    } else if d == 1 {
        '1'
    } else if d == 2 {
        '2'
    } else if d == 3 {
        '3'
    } else if d == 4 {
        '4'
    } else if d == 5 {
        '5'
    } else if d == 6 {
        '6'
    } else if d == 7 {
        '7'
    } else if d == 8 {
        '8'
    } else {
        '9'
    }
}

/// Appends `n` in decimal to `out`.
pub fn append_decimal(out: &mut Vec<char>, n: u64)
    ensures
        final(out)@ == old(out)@ + decimal(n as nat),
    decreases n,
{
    if n >= 10 {
        append_decimal(out, n / 10);
    }
    out.push(digit_char(n % 10));
}

/// Skipping white space stays within the text.
pub proof fn lemma_skip_spaces_in_text(s: Seq<char>, i: int)
    requires
        0 <= i <= s.len(),
    ensures
        i <= skip_spaces(s, i) <= s.len(),
    decreases s.len() - i,
{
    if i < s.len() && is_space(s[i]) {
        lemma_skip_spaces_in_text(s, i + 1);
    }
}

/// Dropping trailing white space stays within the text.
pub proof fn lemma_drop_spaces_in_text(s: Seq<char>, j: int)
    requires
        0 <= j <= s.len(),
    ensures
        0 <= drop_spaces_back(s, j) <= j,
    decreases j,
{
    if 0 < j && is_space(s[j - 1]) {
        lemma_drop_spaces_in_text(s, j - 1);
    }
}

/// What is skipped at the front of a text is white space, and what follows
/// it is not.
pub proof fn lemma_skip_spaces(s: Seq<char>, i: int)
    requires
        0 <= i <= s.len(),
    ensures
        forall|k: int| i <= k < skip_spaces(s, i) ==> is_space(#[trigger] s[k]),
        skip_spaces(s, i) < s.len() ==> !is_space(s[skip_spaces(s, i)]),
    decreases s.len() - i,
{
    lemma_skip_spaces_in_text(s, i);
    if i < s.len() && is_space(s[i]) {
        lemma_skip_spaces(s, i + 1);
    }
}

/// What is dropped at the back of a text is white space, and what stands
/// before it is not.
pub proof fn lemma_drop_spaces_back(s: Seq<char>, j: int)
    requires
        0 <= j <= s.len(),
    ensures
        forall|k: int| drop_spaces_back(s, j) <= k < j ==> is_space(#[trigger] s[k]),
        drop_spaces_back(s, j) > 0 ==> !is_space(s[drop_spaces_back(s, j) - 1]),
    decreases j,
{
    lemma_drop_spaces_in_text(s, j);
    if 0 < j && is_space(s[j - 1]) {
        lemma_drop_spaces_back(s, j - 1);
    }
}

/// A trimmed text neither begins nor ends with white space.
pub proof fn lemma_trimmed_has_no_margin(s: Seq<char>)
    ensures
        trimmed(s).len() > 0 ==> !is_space(trimmed(s).first()) && !is_space(trimmed(s).last()),
{
    lemma_skip_spaces(s, 0);
    lemma_drop_spaces_back(s, s.len() as int);
    lemma_skip_spaces_in_text(s, 0);
    lemma_drop_spaces_in_text(s, s.len() as int);
}

/// Whether a word is not empty and holds no white space.
pub open spec fn is_solid(word: Seq<char>) -> bool {
    word.len() > 0 && forall|k: int| 0 <= k < word.len() ==> !is_space(#[trigger] word[k])
}

/// No word is empty, and no word holds white space.
pub proof fn lemma_words_from_are_solid(s: Seq<char>, i: int, cur: Seq<char>)
    requires
        0 <= i <= s.len(),
        forall|k: int| 0 <= k < cur.len() ==> !is_space(#[trigger] cur[k]),
    ensures
        forall|w: int|
            0 <= w < words_from(s, i, cur).len() ==> is_solid(#[trigger] words_from(s, i, cur)[w]),
    decreases s.len() - i,
{
    let done = if cur.len() > 0 {
        seq![cur]
    } else {
        Seq::empty()
    };
    if i < s.len() {
        if is_space(s[i]) {
            lemma_words_from_are_solid(s, i + 1, Seq::empty());
            let rest = words_from(s, i + 1, Seq::empty());
            assert(words_from(s, i, cur) == done + rest);
            assert forall|w: int| 0 <= w < (done + rest).len() implies is_solid(
                #[trigger] (done + rest)[w],
            ) by {
                if w < done.len() {
                    assert((done + rest)[w] == cur);
                } else {
                    assert((done + rest)[w] == rest[w - done.len()]);
                }
            }
        } else {
            let longer = cur.push(s[i]);
            assert forall|k: int| 0 <= k < longer.len() implies !is_space(#[trigger] longer[k]) by {
                if k < cur.len() {
                    assert(longer[k] == cur[k]);
                }
            }
            lemma_words_from_are_solid(s, i + 1, longer);
            assert(words_from(s, i, cur) == words_from(s, i + 1, longer));
        }
    } else {
        assert(words_from(s, i, cur) == done);
        assert forall|w: int| 0 <= w < done.len() implies is_solid(#[trigger] done[w]) by {
            assert(done[w] == cur);
        }
    }
}

/// No word of a text is empty, and no word holds white space.
pub proof fn lemma_words_are_solid(s: Seq<char>)
    ensures
        forall|w: int| 0 <= w < words(s).len() ==> is_solid(#[trigger] words(s)[w]),
{
    lemma_words_from_are_solid(s, 0, Seq::empty());
}

/// How many words follow does not depend on what the word under way holds,
/// as long as it holds something.
proof fn lemma_words_count_same(s: Seq<char>, i: int, x: Seq<char>, y: Seq<char>)
    requires
        0 <= i <= s.len(),
        x.len() > 0,
        y.len() > 0,
    ensures
        words_from(s, i, x).len() == words_from(s, i, y).len(),
    decreases s.len() - i,
{
    if i < s.len() && !is_space(s[i]) {
        lemma_words_count_same(s, i + 1, x.push(s[i]), y.push(s[i]));
    }
}

/// A word under way adds no fewer words than none.
proof fn lemma_words_count_grows(s: Seq<char>, i: int, cur: Seq<char>)
    requires
        0 <= i <= s.len(),
    ensures
        words_from(s, i, cur).len() >= words_from(s, i, Seq::empty()).len(),
        cur.len() > 0 ==> words_from(s, i, cur).len() >= 1,
    decreases s.len() - i,
{
    if i < s.len() && !is_space(s[i]) {
        lemma_words_count_grows(s, i + 1, cur.push(s[i]));
        if cur.len() > 0 {
            lemma_words_count_same(s, i + 1, cur.push(s[i]), Seq::<char>::empty().push(s[i]));
        } else {
            assert(cur == Seq::<char>::empty());
        }
    }
}

/// What follows a later place of a text has no more words than what follows
/// an earlier one.
proof fn lemma_words_of_suffix(s: Seq<char>, i: int, j: int)
    requires
        0 <= i <= j <= s.len(),
    ensures
        words_from(s, j, Seq::empty()).len() <= words_from(s, i, Seq::empty()).len(),
    decreases j - i,
{
    if i < j {
        lemma_words_of_suffix(s, i + 1, j);
        if !is_space(s[i]) {
            lemma_words_count_grows(s, i + 1, Seq::<char>::empty().push(s[i]));
        }
    }
}

/// The words of a text without its first `k` characters are the words that
/// follow the place `k`.
proof fn lemma_words_of_skip(s: Seq<char>, k: int, i: int, cur: Seq<char>)
    requires
        0 <= k <= s.len(),
        0 <= i <= s.len() - k,
    ensures
        words_from(s.skip(k), i, cur) == words_from(s, k + i, cur),
    decreases s.len() - k - i,
{
    if i < s.len() - k {
        assert(s.skip(k)[i] == s[k + i]);
        if is_space(s[k + i]) {
            lemma_words_of_skip(s, k, i + 1, Seq::empty());
        } else {
            lemma_words_of_skip(s, k, i + 1, cur.push(s[k + i]));
        }
    }
}

/// The first `b` characters of a text have no more words than the text.
proof fn lemma_words_of_take(s: Seq<char>, b: int, i: int, cur: Seq<char>)
    requires
        0 <= i <= b <= s.len(),
    ensures
        words_from(s.take(b), i, cur).len() <= words_from(s, i, cur).len(),
    decreases b - i,
{
    if i < b {
        assert(s.take(b)[i] == s[i]);
        if is_space(s[i]) {
            lemma_words_of_take(s, b, i + 1, Seq::empty());
        } else {
            lemma_words_of_take(s, b, i + 1, cur.push(s[i]));
        }
    } else {
        lemma_words_count_grows(s, i, cur);
    }
}

/// A part of a text has no more words than the text.
pub proof fn lemma_words_of_part(s: Seq<char>, a: int, b: int)
    requires
        0 <= a <= b <= s.len(),
    ensures
        words(s.subrange(a, b)).len() <= words(s).len(),
{
    let head = s.take(b);
    assert(s.subrange(a, b) == head.skip(a));
    lemma_words_of_skip(head, a, 0, Seq::empty());
    lemma_words_of_suffix(head, 0, a);
    lemma_words_of_take(s, b, 0, Seq::empty());
}

/// A trimmed text has no more words than the text.
pub proof fn lemma_words_of_trimmed(s: Seq<char>)
    ensures
        words(trimmed(s)).len() <= words(s).len(),
{
    let a = skip_spaces(s, 0);
    let b = drop_spaces_back(s, s.len() as int);
    lemma_skip_spaces_in_text(s, 0);
    lemma_drop_spaces_in_text(s, s.len() as int);
    if a < b {
        lemma_words_of_part(s, a, b);
    } else {
        assert(words(Seq::<char>::empty()).len() == 0);
    }
}

} // verus!
