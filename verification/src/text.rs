//! Text rules: Unicode white space, blank strings, trimming.

use vstd::prelude::*;

verus! {

/// Unicode `White_Space` property, the set of characters for which
/// `char::is_whitespace` holds.
pub open spec fn is_white_space(c: char) -> bool {
    ||| ('\u{9}' <= c && c <= '\u{d}')
    ||| c == ' '
    ||| c == '\u{85}'
    ||| c == '\u{a0}'
    ||| c == '\u{1680}'
    ||| ('\u{2000}' <= c && c <= '\u{200a}')
    ||| c == '\u{2028}'
    ||| c == '\u{2029}'
    ||| c == '\u{202f}'
    ||| c == '\u{205f}'
    ||| c == '\u{3000}'
}

/// A text is blank when every character in it is white space
/// (the empty text included).
pub open spec fn is_blank(s: Seq<char>) -> bool {
    forall|i: int| 0 <= i < s.len() ==> #[trigger] is_white_space(s[i])
}

/// Tests one character for white space.
pub fn char_is_white_space(c: char) -> (res: bool)
    ensures
        res == is_white_space(c),
{
    ('\u{9}' <= c && c <= '\u{d}') || c == ' ' || c == '\u{85}' || c == '\u{a0}' || c == '\u{1680}'
        || ('\u{2000}' <= c && c <= '\u{200a}') || c == '\u{2028}' || c == '\u{2029}' || c
        == '\u{202f}' || c == '\u{205f}' || c == '\u{3000}'
}


/// Number of white-space characters at the start of `s`.
pub open spec fn leading_white_space(s: Seq<char>) -> nat
    decreases s.len(),
{
    if s.len() > 0 && is_white_space(s[0]) {
        1 + leading_white_space(s.skip(1))
    } else {
        0
    }
}

/// Number of white-space characters at the end of `s`.
pub open spec fn trailing_white_space(s: Seq<char>) -> nat
    decreases s.len(),
{
    if s.len() > 0 && is_white_space(s.last()) {
        1 + trailing_white_space(s.drop_last())
    } else {
        0
    }
}

/// `s` without its leading white space (`str::trim_start`).
pub open spec fn trim_start(s: Seq<char>) -> Seq<char> {
    s.skip(leading_white_space(s) as int)
}

/// `s` without its trailing white space (`str::trim_end`).
pub open spec fn trim_end(s: Seq<char>) -> Seq<char> {
    s.take(s.len() - trailing_white_space(s))
}

/// `s` without leading and trailing white space (`str::trim`).
pub open spec fn trim(s: Seq<char>) -> Seq<char> {
    trim_end(trim_start(s))
}

/// The words joined by single spaces (`[String]::join(" ")`).
pub open spec fn join_words(words: Seq<Seq<char>>) -> Seq<char>
    decreases words.len(),
{
    if words.len() == 0 {
        Seq::empty()
    } else if words.len() == 1 {
        words[0]
    } else {
        join_words(words.drop_last()) + seq![' '] + words.last()
    }
}

/// What follows the last `'/'` of `s`, or all of `s` when it holds none:
/// the first item of `str::rsplit('/')`.
pub open spec fn after_last_slash(s: Seq<char>) -> Seq<char>
    decreases s.len(),
{
    if s.len() == 0 {
        s
    } else if s.last() == '/' {
        Seq::empty()
    } else {
        after_last_slash(s.drop_last()).push(s.last())
    }
}

proof fn lemma_leading_bounded(s: Seq<char>)
    ensures
        leading_white_space(s) <= s.len(),
        forall|i: int| 0 <= i < leading_white_space(s) ==> #[trigger] is_white_space(s[i]),
        leading_white_space(s) < s.len() ==> !is_white_space(s[leading_white_space(s) as int]),
    decreases s.len(),
{
    if s.len() > 0 && is_white_space(s[0]) {
        lemma_leading_bounded(s.skip(1));
        assert forall|i: int| 0 <= i < leading_white_space(s) implies #[trigger] is_white_space(s[i]) by {
            if i > 0 {
                assert(s[i] == s.skip(1)[i - 1]);
            }
        }
        if leading_white_space(s) < s.len() {
            assert(s[leading_white_space(s) as int] == s.skip(1)[leading_white_space(s.skip(1)) as int]);
        }
    }
}

proof fn lemma_trailing_bounded(s: Seq<char>)
    ensures
        trailing_white_space(s) <= s.len(),
        forall|i: int| s.len() - trailing_white_space(s) <= i < s.len() ==> #[trigger] is_white_space(s[i]),
        trailing_white_space(s) < s.len() ==> !is_white_space(s[s.len() - 1 - trailing_white_space(s)]),
    decreases s.len(),
{
    if s.len() > 0 && is_white_space(s.last()) {
        lemma_trailing_bounded(s.drop_last());
        assert forall|i: int| s.len() - trailing_white_space(s) <= i < s.len() implies #[trigger] is_white_space(s[i]) by {
            if i < s.len() - 1 {
                assert(s[i] == s.drop_last()[i]);
            }
        }
    }
}

/// The total length of the words.
pub open spec fn total_length(words: Seq<Seq<char>>) -> nat
    decreases words.len(),
{
    if words.len() == 0 {
        0
    } else {
        total_length(words.drop_last()) + words.last().len()
    }
}

/// Adding a word to a non-empty list adds a space and the word at the end.
pub proof fn lemma_join_push(words: Seq<Seq<char>>, w: Seq<char>)
    requires
        words.len() >= 1,
    ensures
        join_words(words.push(w)) == join_words(words) + seq![' '] + w,
{
    assert(words.push(w).drop_last() =~= words);
}

/// The joined text is as long as the words together with one space between
/// each two of them.
pub proof fn lemma_join_length(words: Seq<Seq<char>>)
    requires
        words.len() >= 1,
    ensures
        join_words(words).len() == total_length(words) + words.len() - 1,
    decreases words.len(),
{
    if words.len() > 1 {
        lemma_join_length(words.drop_last());
    } else {
        assert(words.drop_last().len() == 0);
        assert(total_length(words.drop_last()) == 0);
        assert(words.last() == words[0]);
    }
}

/// Where word `i` starts in the joined text: after the words before it and
/// one space after each of them.
pub open spec fn word_offset(words: Seq<Seq<char>>, i: int) -> int {
    total_length(words.take(i)) + i
}

/// Every word stands whole at its offset in the joined text, followed by a
/// space unless it is the last one.
pub proof fn lemma_join_words_at_offsets(words: Seq<Seq<char>>, i: int)
    requires
        0 <= i < words.len(),
    ensures
        word_offset(words, i) + words[i].len() <= join_words(words).len(),
        join_words(words).subrange(word_offset(words, i), word_offset(words, i) + words[i].len())
            == words[i],
        i + 1 < words.len() ==> join_words(words)[word_offset(words, i) + words[i].len()] == ' ',
    decreases words.len(),
{
    let n = words.len();
    let j = join_words(words);
    lemma_join_length(words);
    if n == 1 {
        assert(words.take(0).len() == 0);
        assert(word_offset(words, 0) == 0);
        assert(j.subrange(0, words[0].len() as int) =~= words[0]);
    } else {
        let init = words.drop_last();
        let ji = join_words(init);
        lemma_join_length(init);
        assert(j == ji + seq![' '] + words.last());
        if i < n - 1 {
            lemma_join_words_at_offsets(init, i);
            assert(init.take(i) =~= words.take(i));
            assert(init[i] == words[i]);
            assert(j.subrange(word_offset(words, i), word_offset(words, i) + words[i].len())
                =~= ji.subrange(word_offset(init, i), word_offset(init, i) + init[i].len()));
            if i + 1 < n - 1 {
                assert(j[word_offset(words, i) + words[i].len()] == ji[word_offset(init, i) + init[i].len()]);
            } else {
                assert(words.take(i + 1).drop_last() =~= words.take(i));
                assert(total_length(words.take(i + 1)) == total_length(words.take(i)) + words[i].len());
                assert(init.take(i + 1) =~= init);
            }
        } else {
            assert(words.take(i) =~= init);
            assert(j.subrange(word_offset(words, i), word_offset(words, i) + words[i].len()) =~= words.last());
        }
    }
}

/// `trim` keeps a middle stretch of `s`: everything cut before and after it
/// is white space, and what is kept neither starts nor ends with white space.
pub proof fn lemma_trim_is_the_middle(s: Seq<char>)
    ensures
        exists|a: int, b: int|
            {
                &&& 0 <= a <= b <= s.len()
                &&& trim(s) == s.subrange(a, b)
                &&& is_blank(s.take(a))
                &&& is_blank(s.skip(b))
            },
        trim(s).len() > 0 ==> !is_white_space(trim(s)[0]) && !is_white_space(trim(s).last()),
{
    lemma_leading_bounded(s);
    let a = leading_white_space(s) as int;
    let t = trim_start(s);
    lemma_trailing_bounded(t);
    let b = a + t.len() - trailing_white_space(t);
    assert(trim(s) =~= s.subrange(a, b));
    assert forall|i: int| 0 <= i < s.take(a).len() implies #[trigger] is_white_space(s.take(a)[i]) by {
        assert(s.take(a)[i] == s[i]);
    }
    assert forall|i: int| 0 <= i < s.skip(b).len() implies #[trigger] is_white_space(s.skip(b)[i]) by {
        assert(s.skip(b)[i] == t[b - a + i]);
    }
    assert(0 <= a <= b <= s.len());
    assert(is_blank(s.take(a)) && is_blank(s.skip(b)));
    assert(trim(s) == s.subrange(a, b));
    if trim(s).len() > 0 {
        assert(trim(s)[0] == s[a]);
        assert(trim(s).last() == t[t.len() - 1 - trailing_white_space(t)]);
    }
}

/// The text after the last `'/'` is a suffix of `s` without any `'/'`,
/// which is either all of `s` or follows a `'/'`.
pub proof fn lemma_after_last_slash_is_last_part(s: Seq<char>)
    ensures
        after_last_slash(s).len() <= s.len(),
        after_last_slash(s) == s.skip(s.len() - after_last_slash(s).len()),
        !after_last_slash(s).contains('/'),
        after_last_slash(s).len() == s.len() || s[s.len() - after_last_slash(s).len() - 1] == '/',
    decreases s.len(),
{
    let r = after_last_slash(s);
    if s.len() == 0 {
        assert(s.skip(0) =~= s);
    } else if s.last() == '/' {
        assert(s.skip(s.len() as int) =~= r);
    } else {
        let p = s.drop_last();
        lemma_after_last_slash_is_last_part(p);
        let q = after_last_slash(p);
        assert(r == q.push(s.last()));
        assert(s.skip(s.len() - r.len()) =~= p.skip(p.len() - q.len()).push(s.last()));
        if r.contains('/') {
            let k = choose|k: int| 0 <= k < r.len() && r[k] == '/';
            if k < q.len() {
                assert(q[k] == '/');
            }
        }
        if r.len() < s.len() {
            assert(s[s.len() - r.len() - 1] == p[p.len() - q.len() - 1]);
        }
    }
}

/// A text trims to nothing exactly when it is blank; this ties the
/// `trim().is_empty()` test of the domain constructors to `is_blank`.
pub proof fn lemma_trim_empty_iff_blank(s: Seq<char>)
    ensures
        trim(s).len() == 0 <==> is_blank(s),
{
    lemma_leading_bounded(s);
    let t = trim_start(s);
    lemma_trailing_bounded(t);
    if is_blank(s) {
        if leading_white_space(s) < s.len() {
            assert(is_white_space(s[leading_white_space(s) as int]));
        }
        assert(t.len() == 0);
    } else {
        let k: int = choose|i: int| 0 <= i < s.len() && !is_white_space(s[i]);
        assert(leading_white_space(s) <= k);
        assert(t.len() > 0);
        assert(t[0] == s[leading_white_space(s) as int]);
        if trailing_white_space(t) == t.len() {
            assert(is_white_space(t[0]));
        }
        assert(trim(s).len() > 0);
    }
}

/// Counts the leading white space of `s`.
fn count_leading_white_space(s: &str) -> (n: usize)
    ensures
        n == leading_white_space(s@),
{
    let len: usize = s.unicode_len();
    let mut i: usize = 0;
    assert(s@.skip(0) =~= s@);
    while i < len && char_is_white_space(s.get_char(i))
        invariant
            len == s@.len(),
            i <= len,
            leading_white_space(s@) == i + leading_white_space(s@.skip(i as int)),
        decreases len - i,
    {
        assert(s@.skip(i as int).skip(1) =~= s@.skip(i + 1));
        i = i + 1;
    }
    if i < len {
        assert(s@.skip(i as int)[0] == s@[i as int]);
    } else {
        assert(s@.skip(i as int).len() == 0);
    }
    i
}

/// Tells whether `s` is blank: `s.trim().is_empty()`.
pub fn str_is_blank(s: &str) -> (res: bool)
    ensures
        res == is_blank(s@),
{
    let n: usize = count_leading_white_space(s);
    proof {
        lemma_leading_bounded(s@);
    }
    n == s.unicode_len()
}

/// Removes the leading and trailing white space of `s` (`str::trim`).
pub fn trimmed(s: &str) -> (res: String)
    ensures
        res@ == trim(s@),
{
    let len: usize = s.unicode_len();
    let start: usize = count_leading_white_space(s);
    proof {
        lemma_leading_bounded(s@);
    }
    let ghost rest = s@.skip(start as int);
    let mut end: usize = len;
    assert(rest.take(len - start) =~= rest);
    while end > start && char_is_white_space(s.get_char(end - 1))
        invariant
            len == s@.len(),
            start <= end <= len,
            rest == s@.skip(start as int),
            trailing_white_space(rest) == (len - end) + trailing_white_space(rest.take(end - start)),
        decreases end,
    {
        assert(rest.take(end - start).drop_last() =~= rest.take(end - 1 - start));
        assert(rest.take(end - start).last() == s@[end - 1]);
        end = end - 1;
    }
    assert(rest.take(end - start) =~= rest.take(end - start));
    if end > start {
        assert(rest.take(end - start).last() == s@[end - 1]);
    } else {
        assert(rest.take(end - start).len() == 0);
    }
    assert(s@.subrange(start as int, end as int) =~= trim_end(rest));
    String::from_str(s.substring_char(start, end))
}

/// Joins the words with single spaces (`[String]::join(" ")`).
pub fn join_with_spaces(words: &Vec<String>) -> (res: String)
    ensures
        res@ == join_words(words@.map_values(|w: String| w@)),
{
    let ghost views = words@.map_values(|w: String| w@);
    let mut res = String::new();
    let mut i: usize = 0;
    while i < words.len()
        invariant
            i <= words.len(),
            views == words@.map_values(|w: String| w@),
            res@ == join_words(views.take(i as int)),
        decreases words.len() - i,
    {
        assert(views.take(i + 1).drop_last() =~= views.take(i as int));
        assert(views.take(i + 1).last() == words[i as int]@);
        if i > 0 {
            proof {
                reveal_strlit(" ");
            }
            res.append(" ");
        }
        res.append(words[i].as_str());
        i = i + 1;
    }
    assert(views.take(words.len() as int) =~= views);
    res
}

/// What follows the last `'/'` of `s`, or all of `s`
/// (`s.rsplit('/').next().unwrap_or(s)`).
pub fn after_last_slash_of(s: &str) -> (res: String)
    ensures
        res@ == after_last_slash(s@),
{
    let len: usize = s.unicode_len();
    let mut start: usize = len;
    assert(s@.take(len as int) =~= s@);
    assert(s@.skip(len as int) =~= Seq::<char>::empty());
    while start > 0 && s.get_char(start - 1) != '/'
        invariant
            len == s@.len(),
            start <= len,
            after_last_slash(s@) == after_last_slash(s@.take(start as int)) + s@.skip(start as int),
        decreases start,
    {
        let ghost t = s@.take(start as int);
        assert(t.drop_last() =~= s@.take(start - 1));
        assert(t.last() == s@[start - 1]);
        assert(s@.skip(start - 1) =~= seq![s@[start - 1]] + s@.skip(start as int));
        start = start - 1;
    }
    if start > 0 {
        assert(s@.take(start as int).last() == s@[start - 1]);
    } else {
        assert(s@.take(0) =~= Seq::<char>::empty());
    }
    assert(s@.skip(start as int) =~= s@.subrange(start as int, len as int));
    String::from_str(s.substring_char(start, len))
}

} // verus!
