//! Characters and strings: white space, trimming, joining.

use vstd::prelude::*;
use vstd::std_specs::iter::IteratorSpec;
use vstd::string::StrSliceExecFns;
use vstd::string::StringExecFns;

verus! {

/// The characters that carry the Unicode property `White_Space`.
pub open spec fn is_white_space(c: char) -> bool {
    let n = c as u32;
    ||| 0x09 <= n <= 0x0D
    ||| n == 0x20
    ||| n == 0x85
    ||| n == 0xA0
    ||| n == 0x1680
    ||| 0x2000 <= n <= 0x200A
    ||| n == 0x2028
    ||| n == 0x2029
    ||| n == 0x202F
    ||| n == 0x205F
    ||| n == 0x3000
}

/// A text is blank when it holds nothing but white space; the empty text is blank.
pub open spec fn blank(s: Seq<char>) -> bool {
    forall|i: int| 0 <= i < s.len() ==> is_white_space(#[trigger] s[i])
}

/// `s` without the white space it begins with.
pub open spec fn trim_start(s: Seq<char>) -> Seq<char>
    decreases s.len(),
{
    if s.len() > 0 && is_white_space(s.first()) {
        trim_start(s.drop_first())
    } else {
        s
    }
}

/// `s` without the white space it ends with.
pub open spec fn trim_end(s: Seq<char>) -> Seq<char>
    decreases s.len(),
{
    if s.len() > 0 && is_white_space(s.last()) {
        trim_end(s.drop_last())
    } else {
        s
    }
}

/// `s` without the white space at either end.
pub open spec fn trimmed(s: Seq<char>) -> Seq<char> {
    trim_end(trim_start(s))
}

/// The texts of `words` in order, with `sep` between each two neighbours.
pub open spec fn joined(words: Seq<Seq<char>>, sep: Seq<char>) -> Seq<char>
    decreases words.len(),
{
    if words.len() == 0 {
        Seq::empty()
    } else if words.len() == 1 {
        words[0]
    } else {
        joined(words.drop_last(), sep) + sep + words.last()
    }
}

/// Cutting a white prefix of length `k` off `s` leaves what `trim_start` leaves,
/// once the character after the prefix is not white space.
pub proof fn lemma_trim_start_at(s: Seq<char>, k: int)
    requires
        0 <= k <= s.len(),
        blank(s.subrange(0, k)),
        k < s.len() ==> !is_white_space(s[k]),
    ensures
        trim_start(s) == s.subrange(k, s.len() as int),
    decreases k,
{
    if k == 0 {
        assert(s.subrange(0, s.len() as int) =~= s);
    } else {
        assert(s.subrange(0, k)[0] == s[0]);
        let rest = s.drop_first();
        assert forall|i: int| 0 <= i < k - 1 implies is_white_space(
            #[trigger] rest.subrange(0, k - 1)[i],
        ) by {
            assert(rest.subrange(0, k - 1)[i] == s.subrange(0, k)[i + 1]);
        }
        lemma_trim_start_at(rest, k - 1);
        assert(rest.subrange(k - 1, rest.len() as int) =~= s.subrange(k, s.len() as int));
    }
}

/// Cutting a white suffix that begins at `k` off `s` leaves what `trim_end` leaves,
/// once the character before the suffix is not white space.
pub proof fn lemma_trim_end_at(s: Seq<char>, k: int)
    requires
        0 <= k <= s.len(),
        blank(s.subrange(k, s.len() as int)),
        0 < k ==> !is_white_space(s[k - 1]),
    ensures
        trim_end(s) == s.subrange(0, k),
    decreases s.len() - k,
{
    if k == s.len() {
        assert(s.subrange(0, k) =~= s);
    } else {
        let n = s.len() as int;
        assert(s.subrange(k, n)[n - 1 - k] == s[n - 1]);
        let rest = s.drop_last();
        assert forall|i: int| 0 <= i < n - 1 - k implies is_white_space(
            #[trigger] rest.subrange(k, n - 1)[i],
        ) by {
            assert(rest.subrange(k, n - 1)[i] == s.subrange(k, n)[i]);
        }
        lemma_trim_end_at(rest, k);
        assert(rest.subrange(0, k) =~= s.subrange(0, k));
    }
}

proof fn lemma_trim_start_of_blank(s: Seq<char>)
    requires
        blank(s),
    ensures
        trim_start(s).len() == 0,
    decreases s.len(),
{
    if s.len() > 0 {
        assert(is_white_space(s[0]));
        assert forall|i: int| 0 <= i < s.drop_first().len() implies is_white_space(
            #[trigger] s.drop_first()[i],
        ) by {
            assert(s.drop_first()[i] == s[i + 1]);
        }
        lemma_trim_start_of_blank(s.drop_first());
    }
}

proof fn lemma_trim_start_of_text(s: Seq<char>)
    requires
        !blank(s),
    ensures
        trim_start(s).len() > 0,
        !is_white_space(trim_start(s).first()),
    decreases s.len(),
{
    if s.len() > 0 && is_white_space(s.first()) {
        let i = choose|i: int| 0 <= i < s.len() && !is_white_space(#[trigger] s[i]);
        assert(s.drop_first()[i - 1] == s[i]);
        lemma_trim_start_of_text(s.drop_first());
    }
}

proof fn lemma_trim_end_of_text(s: Seq<char>)
    requires
        s.len() > 0,
        !is_white_space(s.first()),
    ensures
        trim_end(s).len() > 0,
        trim_end(s).first() == s.first(),
        !is_white_space(trim_end(s).last()),
    decreases s.len(),
{
    if is_white_space(s.last()) {
        assert(s.drop_last().first() == s.first());
        lemma_trim_end_of_text(s.drop_last());
    }
}

/// Trimming leaves nothing of a blank text and of no other; what it leaves of
/// another text neither begins nor ends with white space.
pub proof fn lemma_trimmed_ends(s: Seq<char>)
    ensures
        blank(s) <==> trimmed(s).len() == 0,
        trimmed(s).len() > 0 ==> !is_white_space(trimmed(s).first()) && !is_white_space(
            trimmed(s).last(),
        ),
{
    if blank(s) {
        lemma_trim_start_of_blank(s);
    } else {
        lemma_trim_start_of_text(s);
        lemma_trim_end_of_text(trim_start(s));
    }
}

/// A text that neither begins nor ends with white space is left as it is:
/// trimming what was trimmed changes nothing.
pub proof fn lemma_trimmed_twice(s: Seq<char>)
    ensures
        trimmed(trimmed(s)) == trimmed(s),
{
    lemma_trimmed_ends(s);
}

/// Whether `c` is white space.
pub fn is_whitespace(c: char) -> (r: bool)
    ensures
        r == is_white_space(c),
{
    let n: u32 = c as u32;
    (0x09 <= n && n <= 0x0D) || n == 0x20 || n == 0x85 || n == 0xA0 || n == 0x1680 || (0x2000 <= n
        && n <= 0x200A) || n == 0x2028 || n == 0x2029 || n == 0x202F || n == 0x205F || n == 0x3000
}

/// The characters of `s`, in order.
pub fn chars_of(s: &str) -> (v: Vec<char>)
    ensures
        v@ == s@,
{
    let mut v: Vec<char> = Vec::new();
    for c in it: s.chars()
        invariant
            v@ == it.seq().take(it.index() as int),
            it.seq() == s@,
    {
        v.push(c);
    }
    v
}

/// `s` without the white space at either end.
pub fn trim(s: &str) -> (r: &str)
    ensures
        r@ == trimmed(s@),
{
    let chars = chars_of(s);
    let n: usize = chars.len();
    let mut start: usize = 0;
    while start < n && is_whitespace(chars[start])
        invariant
            start <= n,
            n == chars@.len(),
            blank(chars@.subrange(0, start as int)),
        decreases n - start,
    {
        start = start + 1;
    }
    let mut end: usize = n;
    while end > start && is_whitespace(chars[end - 1])
        invariant
            start <= end <= n,
            n == chars@.len(),
            blank(chars@.subrange(end as int, n as int)),
        decreases end,
    {
        proof {
            assert forall|k: int| 0 <= k < n - end + 1 implies is_white_space(
                #[trigger] chars@.subrange(end - 1, n as int)[k],
            ) by {
                if k > 0 {
                    assert(chars@.subrange(end - 1, n as int)[k] == chars@.subrange(
                        end as int,
                        n as int,
                    )[k - 1]);
                }
            }
        }
        end = end - 1;
    }
    proof {
        let full = s@;
        lemma_trim_start_at(full, start as int);
        let tail = full.subrange(start as int, n as int);
        assert(tail.subrange(end - start, tail.len() as int) =~= full.subrange(
            end as int,
            n as int,
        ));
        lemma_trim_end_at(tail, end - start);
        assert(tail.subrange(0, end - start) =~= full.subrange(start as int, end as int));
    }
    s.substring_char(start, end)
}

/// Whether `s` holds nothing but white space.
pub fn is_blank(s: &str) -> (r: bool)
    ensures
        r == blank(s@),
{
    let chars = chars_of(s);
    let n: usize = chars.len();
    let mut i: usize = 0;
    while i < n
        invariant
            i <= n,
            n == chars@.len(),
            chars@ == s@,
            blank(chars@.subrange(0, i as int)),
        decreases n - i,
    {
        if !is_whitespace(chars[i]) {
            return false;
        }
        proof {
            assert forall|k: int| 0 <= k < i + 1 implies is_white_space(
                #[trigger] chars@.subrange(0, i + 1)[k],
            ) by {
                if k < i {
                    assert(chars@.subrange(0, i + 1)[k] == chars@.subrange(0, i as int)[k]);
                }
            }
        }
        i = i + 1;
    }
    assert(chars@.subrange(0, n as int) =~= s@);
    true
}

/// Whether `a` and `b` hold the same characters.
pub fn same_text(a: &str, b: &str) -> (r: bool)
    ensures
        r == (a@ == b@),
{
    a.to_owned() == b.to_owned()
}

/// The words in order, with one space between each two neighbours.
pub fn join_words(words: &Vec<String>) -> (r: String)
    ensures
        r@ == joined(words.deep_view(), " "@),
{
    let ghost texts = words.deep_view();
    let mut out = String::new();
    let mut i: usize = 0;
    while i < words.len()
        invariant
            i <= words.len(),
            texts == words.deep_view(),
            out@ == joined(texts.take(i as int), " "@),
        decreases words.len() - i,
    {
        proof {
            let before = texts.take(i as int);
            let after = texts.take(i + 1);
            assert(after.drop_last() =~= before);
            assert(after.last() == words@[i as int]@);
        }
        if i > 0 {
            out.append(" ");
        }
        out.append(words[i].as_str());
        i = i + 1;
    }
    assert(texts.take(words.len() as int) =~= texts);
    out
}

} // verus!
