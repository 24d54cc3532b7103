//! Character-level text handling shared by the rest of the library: decimal
//! rendering of numbers, substring search, whitespace splitting and joining.
use vstd::prelude::*;

verus! {

// ---------------------------------------------------------------------------
// What std computes on text and that vstd does not describe.
// ---------------------------------------------------------------------------
/// What `str::to_lowercase` returns for a string with the given characters.
pub uninterp spec fn lowercase_of(s: Seq<char>) -> Seq<char>;

/// Whether a character has the Unicode `White_Space` property, which is
/// what `char::is_whitespace` tests: the ASCII tab, line feed, vertical
/// tab, form feed, carriage return and space, the next line and no-break
/// space, the Ogham space mark, the spaces from the en quad to the hair
/// space, the line and paragraph separators, the narrow no-break space, the
/// medium mathematical space and the ideographic space.
pub open spec fn char_is_whitespace(c: char) -> bool {
    let n = c as u32;
    ||| 0x09 <= n <= 0x0d
    ||| n == 0x20
    ||| n == 0x85
    ||| n == 0xa0
    ||| n == 0x1680
    ||| 0x2000 <= n <= 0x200a
    ||| n == 0x2028
    ||| n == 0x2029
    ||| n == 0x202f
    ||| n == 0x205f
    ||| n == 0x3000
}

/// Calls `str::to_lowercase`; the result is named `lowercase_of` of the
/// argument's characters. Nothing more is claimed of the Unicode case mapping.
#[verifier::external_body]
pub(crate) fn to_lowercase(s: &str) -> (res: String)
    ensures
        res@ == lowercase_of(s@),
{
    s.to_lowercase()
}

/// Whether a character is whitespace, as `char::is_whitespace` decides it.
pub fn is_whitespace(c: char) -> (res: bool)
    ensures
        res == char_is_whitespace(c),
{
    let n = c as u32;
    (0x09 <= n && n <= 0x0d) || n == 0x20 || n == 0x85 || n == 0xa0 || n == 0x1680 || (0x2000
        <= n && n <= 0x200a) || n == 0x2028 || n == 0x2029 || n == 0x202f || n == 0x205f || n
        == 0x3000
}

/// Calls `String::push`, which appends one character.
#[verifier::external_body]
pub(crate) fn push_char(s: &mut String, c: char)
    ensures
        final(s)@ == old(s)@.push(c),
{
    s.push(c);
}

// ---------------------------------------------------------------------------
// Conversions between strings and character vectors.
// ---------------------------------------------------------------------------
/// The characters of a string slice, in order.
pub fn chars_of(s: &str) -> (res: Vec<char>)
    ensures
        res@ == s@,
{
    let mut res: Vec<char> = Vec::new();
    for c in it: s.chars()
        invariant
            res@ == it.seq().take(it.index() as int),
    {
        res.push(c);
    }
    res
}

/// Appends the characters of `cs` to `s`.
pub fn push_chars(s: &mut String, cs: &Vec<char>)
    ensures
        final(s)@ == old(s)@ + cs@,
{
    let mut i: usize = 0;
    while i < cs.len()
        invariant
            i <= cs.len(),
            s@ == old(s)@ + cs@.take(i as int),
        decreases cs.len() - i,
    {
        push_char(s, cs[i]);
        i = i + 1;
        assert(cs@.take(i as int) =~= cs@.take((i - 1) as int).push(cs@[i - 1]));
    }
    assert(cs@.take(cs.len() as int) =~= cs@);
}

/// A new string holding the characters of `cs`.
pub fn string_of(cs: &Vec<char>) -> (res: String)
    ensures
        res@ == cs@,
{
    let mut res = String::new();
    push_chars(&mut res, cs);
    res
}

/// Appends the characters of `t` to `s`.
pub fn push_str(s: &mut String, t: &str)
    ensures
        final(s)@ == old(s)@ + t@,
{
    let cs = chars_of(t);
    push_chars(s, &cs);
}

/// Whether two character sequences held by a vector and a string are equal.
pub fn chars_equal(a: &Vec<char>, b: &str) -> (res: bool)
    ensures
        res == (a@ == b@),
{
    let bs = chars_of(b);
    if a.len() != bs.len() {
        return false;
    }
    let mut i: usize = 0;
    while i < a.len()
        invariant
            a.len() == bs.len(),
            bs@ == b@,
            i <= a.len(),
            forall|j: int| 0 <= j < i ==> a@[j] == bs@[j],
        decreases a.len() - i,
    {
        if a[i] != bs[i] {
            return false;
        }
        i = i + 1;
    }
    assert(a@ =~= bs@);
    true
}

// ---------------------------------------------------------------------------
// Decimal rendering.
// ---------------------------------------------------------------------------
/// The character of a decimal digit.
pub open spec fn digit_char(d: nat) -> char {
    if d == 0 {
        '0'
    } else if d == 1 {
        '1'
    } else if d == 2 {
        '2'
    } else if d == 3 {
        '3'
    } else if d == 4 {
        '4'
    } else if d == 5 {
        '5'
    } else if d == 6 {
        '6'
    } else if d == 7 {
        '7'
    } else if d == 8 {
        '8'
    } else {
        '9'
    }
}

/// The decimal digits of `n`, most significant first, without leading zeros
/// (zero is the single digit `0`).
pub open spec fn decimal(n: nat) -> Seq<char>
    decreases n,
{
    if n < 10 {
        seq![digit_char(n)]
    } else {
        decimal(n / 10).push(digit_char(n % 10))
    }
}

/// The decimal digits of `n`, preceded by as many `0` as make up `width`
/// characters (what `{:0width$}` prints for a non-negative number).
pub open spec fn zero_padded(n: nat, width: nat) -> Seq<char> {
    let d = decimal(n);
    if d.len() < width {
        Seq::new((width - d.len()) as nat, |i: int| '0') + d
    } else {
        d
    }
}

/// A decimal number has at least one and at most twenty digits below 2^64.
pub proof fn lemma_decimal_len(n: nat)
    ensures
        decimal(n).len() >= 1,
        n < 10 ==> decimal(n).len() == 1,
        n < 100 ==> decimal(n).len() <= 2,
        n < 1000 ==> decimal(n).len() <= 3,
        n < 10000 ==> decimal(n).len() <= 4,
        n >= 10 ==> decimal(n).len() >= 2,
        n >= 100 ==> decimal(n).len() >= 3,
        n >= 1000 ==> decimal(n).len() >= 4,
    decreases n,
{
    if n >= 10 {
        lemma_decimal_len(n / 10);
    }
}

fn digit(d: u64) -> (c: char)
    requires
        d < 10,
    ensures
        c == digit_char(d as nat),
{
    if d == 0 {
        '0'
    } else if d == 1 {
        '1'
    } else if d == 2 {
        '2'
    } else if d == 3 {
        '3'
    } else if d == 4 {
        '4'
    } else if d == 5 {
        '5'
    } else if d == 6 {
        '6'
    } else if d == 7 {
        '7'
    } else if d == 8 {
        '8'
    } else {
        '9'
    }
}

/// The decimal digits of `n`.
pub fn decimal_chars(n: u64) -> (res: Vec<char>)
    ensures
        res@ == decimal(n as nat),
    decreases n,
{
    if n < 10 {
        let mut v: Vec<char> = Vec::new();
        v.push(digit(n));
        v
    } else {
        let mut v = decimal_chars(n / 10);
        v.push(digit(n % 10));
        v
    }
}

/// Appends `n` in decimal, zero-padded to `width` characters.
pub fn push_padded(s: &mut String, n: u64, width: usize)
    ensures
        final(s)@ == old(s)@ + zero_padded(n as nat, width as nat),
{
    let ds = decimal_chars(n);
    let mut pad: Vec<char> = Vec::new();
    let mut k: usize = ds.len();
    while k < width
        invariant
            ds.len() <= k <= width || (k == ds.len() && k >= width),
            pad@ =~= Seq::new((k - ds.len()) as nat, |i: int| '0'),
        decreases width - k,
    {
        pad.push('0');
        k = k + 1;
    }
    push_chars(s, &pad);
    push_chars(s, &ds);
    if ds.len() >= width {
        assert(pad@ =~= Seq::<char>::empty());
        assert(s@ =~= old(s)@ + zero_padded(n as nat, width as nat));
    } else {
        assert(s@ =~= old(s)@ + zero_padded(n as nat, width as nat));
    }
}

/// Appends `n` in decimal.
pub fn push_decimal(s: &mut String, n: u64)
    ensures
        final(s)@ == old(s)@ + decimal(n as nat),
{
    let ds = decimal_chars(n);
    push_chars(s, &ds);
}

/// `n` in decimal, as `to_string` renders an unsigned number.
pub fn decimal_string(n: u64) -> (res: String)
    ensures
        res@ == decimal(n as nat),
{
    let mut s = String::new();
    push_decimal(&mut s, n);
    s
}

// ---------------------------------------------------------------------------
// Substring search.
// ---------------------------------------------------------------------------
/// Whether `pat` occurs in `hay` starting at `i`.
pub open spec fn occurs_at(hay: Seq<char>, pat: Seq<char>, i: int) -> bool {
    0 <= i && i + pat.len() <= hay.len() && hay.subrange(i, i + pat.len()) == pat
}

/// The first position at or after `from` where `pat` occurs in `hay`.
pub open spec fn find_from(hay: Seq<char>, pat: Seq<char>, from: int) -> Option<int>
    decreases hay.len() + 1 - from,
{
    if from < 0 || from + pat.len() > hay.len() {
        None
    } else if occurs_at(hay, pat, from) {
        Some(from)
    } else {
        find_from(hay, pat, from + 1)
    }
}

/// The first position where `pat` occurs in `hay` (what `str::find` gives,
/// counted in characters).
pub open spec fn find_first(hay: Seq<char>, pat: Seq<char>) -> Option<int> {
    find_from(hay, pat, 0)
}

/// `find_from` finds the least position at or after `from`.
pub proof fn lemma_find_from(hay: Seq<char>, pat: Seq<char>, from: int)
    requires
        0 <= from,
    ensures
        match find_from(hay, pat, from) {
            Some(i) => from <= i && occurs_at(hay, pat, i) && forall|j: int|
                from <= j < i ==> !occurs_at(hay, pat, j),
            None => forall|j: int| from <= j ==> !occurs_at(hay, pat, j),
        },
    decreases hay.len() + 1 - from,
{
    if from + pat.len() > hay.len() {
    } else if occurs_at(hay, pat, from) {
    } else {
        lemma_find_from(hay, pat, from + 1);
    }
}

/// Whether `pat` occurs in `hay` at `i`.
fn matches_at(hay: &Vec<char>, pat: &Vec<char>, i: usize) -> (res: bool)
    requires
        i + pat.len() <= hay.len(),
    ensures
        res == occurs_at(hay@, pat@, i as int),
{
    let mut k: usize = 0;
    while k < pat.len()
        invariant
            i + pat.len() <= hay.len(),
            k <= pat.len(),
            forall|j: int| 0 <= j < k ==> hay@[i + j] == pat@[j],
        decreases pat.len() - k,
    {
        if hay[i + k] != pat[k] {
            assert(hay@.subrange(i as int, i + pat.len())[k as int] != pat@[k as int]);
            return false;
        }
        k = k + 1;
    }
    assert(hay@.subrange(i as int, i + pat.len()) =~= pat@);
    true
}

/// The first position where `pat` occurs in `hay`.
pub fn find(hay: &Vec<char>, pat: &Vec<char>) -> (res: Option<usize>)
    ensures
        match res {
            Some(i) => find_first(hay@, pat@) == Some(i as int),
            None => find_first(hay@, pat@) is None,
        },
{
    if pat.len() > hay.len() {
        return None;
    }
    if pat.len() == 0 {
        assert(hay@.subrange(0, 0) =~= pat@);
        return Some(0);
    }
    let mut i: usize = 0;
    while i <= hay.len() - pat.len()
        invariant
            0 < pat.len() <= hay.len(),
            i <= hay.len() - pat.len() + 1,
            find_first(hay@, pat@) == find_from(hay@, pat@, i as int),
        decreases hay.len() - i,
    {
        if matches_at(hay, pat, i) {
            return Some(i);
        }
        i = i + 1;
    }
    None
}

/// Whether `hay` begins with `pat`.
pub fn starts_with(hay: &Vec<char>, pat: &Vec<char>) -> (res: bool)
    ensures
        res == (pat.len() <= hay.len() && hay@.take(pat.len() as int) == pat@),
{
    if pat.len() > hay.len() {
        return false;
    }
    let r = matches_at(hay, pat, 0);
    assert(hay@.subrange(0, pat.len() as int) =~= hay@.take(pat.len() as int));
    r
}

// ---------------------------------------------------------------------------
// Splitting on whitespace and joining with a space.
// ---------------------------------------------------------------------------
/// The number of whitespace characters that `s` begins with.
pub open spec fn leading_ws(s: Seq<char>) -> nat
    decreases s.len(),
{
    if s.len() > 0 && char_is_whitespace(s[0]) {
        1 + leading_ws(s.drop_first())
    } else {
        0
    }
}

/// The number of non-whitespace characters that `s` begins with.
pub open spec fn word_len(s: Seq<char>) -> nat
    decreases s.len(),
{
    if s.len() > 0 && !char_is_whitespace(s[0]) {
        1 + word_len(s.drop_first())
    } else {
        0
    }
}

/// The maximal runs of non-whitespace characters of `s`, in order (what
/// `str::split_whitespace` yields).
pub open spec fn words(s: Seq<char>) -> Seq<Seq<char>>
    decreases s.len(),
{
    let t = s.skip(leading_ws(s) as int);
    if leading_ws(s) > s.len() || t.len() == 0 {
        Seq::empty()
    } else if word_len(t) == 0 || word_len(t) > t.len() {
        Seq::empty()
    } else {
        seq![t.take(word_len(t) as int)] + words(t.skip(word_len(t) as int))
    }
}

/// Whether no character of `w` is whitespace.
pub open spec fn no_ws(w: Seq<char>) -> bool {
    forall|i: int| 0 <= i < w.len() ==> !char_is_whitespace(#[trigger] w[i])
}

/// The words joined with a single space between neighbours.
pub open spec fn join_space(ws: Seq<Seq<char>>) -> Seq<char>
    decreases ws.len(),
{
    if ws.len() == 0 {
        Seq::empty()
    } else if ws.len() == 1 {
        ws[0]
    } else {
        ws[0] + seq![' '] + join_space(ws.drop_first())
    }
}

proof fn lemma_leading_ws_bound(s: Seq<char>)
    ensures
        leading_ws(s) <= s.len(),
        forall|i: int| 0 <= i < leading_ws(s) ==> char_is_whitespace(#[trigger] s[i]),
        leading_ws(s) < s.len() ==> !char_is_whitespace(s[leading_ws(s) as int]),
    decreases s.len(),
{
    if s.len() > 0 && char_is_whitespace(s[0]) {
        lemma_leading_ws_bound(s.drop_first());
        assert forall|i: int| 0 <= i < leading_ws(s) implies char_is_whitespace(#[trigger] s[i]) by {
            if i > 0 {
                assert(s[i] == s.drop_first()[i - 1]);
            }
        }
    }
}

proof fn lemma_word_len_bound(s: Seq<char>)
    ensures
        word_len(s) <= s.len(),
        forall|i: int| 0 <= i < word_len(s) ==> !char_is_whitespace(#[trigger] s[i]),
        word_len(s) < s.len() ==> char_is_whitespace(s[word_len(s) as int]),
    decreases s.len(),
{
    if s.len() > 0 && !char_is_whitespace(s[0]) {
        lemma_word_len_bound(s.drop_first());
        assert forall|i: int| 0 <= i < word_len(s) implies !char_is_whitespace(#[trigger] s[i]) by {
            if i > 0 {
                assert(s[i] == s.drop_first()[i - 1]);
            }
        }
    }
}

/// A word without whitespace followed by more text: its length is the word's.
proof fn lemma_word_len_prefix(w: Seq<char>, rest: Seq<char>)
    requires
        no_ws(w),
        rest.len() == 0 || char_is_whitespace(rest[0]),
    ensures
        word_len(w + rest) == w.len(),
    decreases w.len(),
{
    if w.len() == 0 {
        assert(w + rest =~= rest);
    } else {
        assert((w + rest).drop_first() =~= w.drop_first() + rest);
        assert((w + rest)[0] == w[0]);
        lemma_word_len_prefix(w.drop_first(), rest);
    }
}

/// Text that begins with a word has leading whitespace count zero.
proof fn lemma_leading_ws_zero(s: Seq<char>)
    requires
        s.len() > 0,
        !char_is_whitespace(s[0]),
    ensures
        leading_ws(s) == 0,
{
}

/// A whitespace character in front does not change the words.
pub proof fn lemma_words_ws_front(c: char, t: Seq<char>)
    requires
        char_is_whitespace(c),
    ensures
        words(seq![c] + t) == words(t),
{
    let s = seq![c] + t;
    assert(s[0] == c);
    assert(s.drop_first() =~= t);
    assert(leading_ws(s) == 1 + leading_ws(t));
    lemma_leading_ws_bound(t);
    assert(s.skip(leading_ws(s) as int) =~= t.skip(leading_ws(t) as int));
}

/// A non-empty word followed by whitespace and more text.
pub proof fn lemma_words_word_then_ws(w: Seq<char>, c: char, t: Seq<char>)
    requires
        w.len() > 0,
        no_ws(w),
        char_is_whitespace(c),
    ensures
        words(w + (seq![c] + t)) == seq![w] + words(t),
{
    let rest = seq![c] + t;
    let s = w + rest;
    assert(s[0] == w[0]);
    lemma_leading_ws_zero(s);
    assert(s.skip(0) =~= s);
    assert(rest[0] == c);
    lemma_word_len_prefix(w, rest);
    assert(s.take(w.len() as int) =~= w);
    assert(s.skip(w.len() as int) =~= rest);
    lemma_words_ws_front(c, t);
}

/// A non-empty word alone.
pub proof fn lemma_words_single(w: Seq<char>)
    requires
        w.len() > 0,
        no_ws(w),
    ensures
        words(w) == seq![w],
{
    let e = Seq::<char>::empty();
    assert(w + e =~= w);
    lemma_word_len_prefix(w, e);
    assert(w[0] == w[0]);
    lemma_leading_ws_zero(w);
    assert(w.skip(0) =~= w);
    assert(w.take(w.len() as int) =~= w);
    assert(w.skip(w.len() as int) =~= e);
    assert(words(e) =~= Seq::<Seq<char>>::empty());
}

/// The words of a text, in order.
pub fn split_whitespace(s: &Vec<char>) -> (res: Vec<Vec<char>>)
    ensures
        res@.len() == words(s@).len(),
        forall|i: int| 0 <= i < res@.len() ==> (#[trigger] res@[i])@ == words(s@)[i],
{
    let mut acc: Vec<Vec<char>> = Vec::new();
    let ghost mut acc_view: Seq<Seq<char>> = Seq::empty();
    let mut cur: Vec<char> = Vec::new();
    let mut i: usize = 0;
    assert(s@.skip(0) =~= s@);
    assert(cur@ + s@.skip(0) =~= s@);
    while i < s.len()
        invariant
            i <= s.len(),
            no_ws(cur@),
            acc@.len() == acc_view.len(),
            forall|k: int| 0 <= k < acc@.len() ==> (#[trigger] acc@[k])@ == acc_view[k],
            words(s@) == acc_view + words(cur@ + s@.skip(i as int)),
        decreases s.len() - i,
    {
        let c = s[i];
        let ghost tail = s@.skip(i as int + 1);
        assert(s@.skip(i as int) =~= seq![c] + tail);
        if is_whitespace(c) {
            if cur.len() > 0 {
                proof {
                    lemma_words_word_then_ws(cur@, c, tail);
                }
                let ghost w = cur@;
                acc.push(cur);
                proof {
                    acc_view = acc_view.push(w);
                }
                cur = Vec::new();
                assert(cur@ + tail =~= tail);
                assert(words(s@) =~= acc_view + words(cur@ + tail));
            } else {
                proof {
                    lemma_words_ws_front(c, tail);
                }
                assert(cur@ + (seq![c] + tail) =~= seq![c] + tail);
                assert(cur@ + tail =~= tail);
            }
        } else {
            let ghost old_cur = cur@;
            cur.push(c);
            assert(cur@ + tail =~= old_cur + (seq![c] + tail));
            assert forall|k: int| 0 <= k < cur@.len() implies !char_is_whitespace(#[trigger] cur@[k]) by {
                if k < old_cur.len() {
                    assert(cur@[k] == old_cur[k]);
                }
            }
        }
        i = i + 1;
    }
    assert(s@.skip(s.len() as int) =~= Seq::<char>::empty());
    assert(cur@ + Seq::<char>::empty() =~= cur@);
    if cur.len() > 0 {
        proof {
            lemma_words_single(cur@);
        }
        let ghost w = cur@;
        acc.push(cur);
        proof {
            acc_view = acc_view.push(w);
        }
        assert(words(s@) =~= acc_view);
    } else {
        assert(cur@ =~= Seq::<char>::empty());
        assert(words(s@) =~= acc_view);
    }
    acc
}

/// The words from index `from` on, joined with single spaces.
pub fn join_words(ws: &Vec<Vec<char>>, from: usize) -> (res: String)
    requires
        from <= ws.len(),
    ensures
        res@ == join_space(ws@.skip(from as int).map_values(|w: Vec<char>| w@)),
{
    let mut res = String::new();
    let mut i: usize = from;
    let ghost all = ws@.skip(from as int).map_values(|w: Vec<char>| w@);
    while i < ws.len()
        invariant
            from <= i <= ws.len(),
            all == ws@.skip(from as int).map_values(|w: Vec<char>| w@),
            join_space(all) == res@ + (if i > from && i < ws.len() {
                seq![' ']
            } else {
                Seq::empty()
            }) + join_space(ws@.skip(i as int).map_values(|w: Vec<char>| w@)),
            i == from ==> res@.len() == 0,
        decreases ws.len() - i,
    {
        let ghost rest = ws@.skip(i as int).map_values(|w: Vec<char>| w@);
        let ghost next = ws@.skip(i as int + 1).map_values(|w: Vec<char>| w@);
        assert(rest.drop_first() =~= next);
        assert(rest[0] == ws@[i as int]@);
        if i > from {
            push_char(&mut res, ' ');
        }
        push_chars(&mut res, &ws[i]);
        i = i + 1;
        if i < ws.len() {
            assert(join_space(rest) == rest[0] + seq![' '] + join_space(next));
            assert(join_space(all) =~= res@ + seq![' '] + join_space(next));
        } else {
            assert(next.len() == 0);
            assert(join_space(rest) == rest[0]);
            assert(join_space(all) =~= res@ + join_space(next));
        }
    }
    assert(ws@.skip(i as int).map_values(|w: Vec<char>| w@).len() == 0);
    assert(join_space(all) =~= res@);
    res
}

} // verus!
