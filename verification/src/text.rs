//! Texts: comparing, trimming, compacting and cutting them.

use vstd::prelude::*;
use vstd::string::*;
use vstd::utf8::*;

verus! {

/// The characters that have the Unicode property White_Space.
pub open spec fn is_white_space(c: char) -> bool {
    let u = c as u32;
    ||| 0x09 <= u <= 0x0d
    ||| u == 0x20
    ||| u == 0x85
    ||| u == 0xa0
    ||| u == 0x1680
    ||| 0x2000 <= u <= 0x200a
    ||| u == 0x2028
    ||| u == 0x2029
    ||| u == 0x202f
    ||| u == 0x205f
    ||| u == 0x3000
}

/// `char::is_whitespace`: whether the character has the property White_Space.
pub assume_specification[ char::is_whitespace ](c: char) -> (found: bool)
    ensures
        found == is_white_space(c),
;

/// `String::push`: the character is appended to the end.
pub assume_specification[ String::push ](string: &mut String, ch: char)
    ensures
        final(string)@ == old(string)@.push(ch),
;

/// What `String::from_utf8_lossy` reads bytes as.
pub uninterp spec fn lossy_utf8(bytes: Seq<u8>) -> Seq<char>;

/// `String::from_utf8_lossy`: the text is a function of the bytes, and of valid UTF-8 it is the
/// text that was encoded.
#[verifier::external_body]
pub(crate) fn from_utf8_lossy(bytes: &[u8]) -> (text: String)
    ensures
        text@ == lossy_utf8(bytes@),
        valid_utf8(bytes@) ==> text@ == decode_utf8(bytes@),
{
    String::from_utf8_lossy(bytes).into_owned()
}

/// Without the white space at the start.
pub open spec fn trimmed_start(text: Seq<char>) -> Seq<char>
    decreases text.len(),
{
    if text.len() > 0 && is_white_space(text.first()) {
        trimmed_start(text.drop_first())
    } else {
        text
    }
}

/// Without the white space at the end.
pub open spec fn trimmed_end(text: Seq<char>) -> Seq<char>
    decreases text.len(),
{
    if text.len() > 0 && is_white_space(text.last()) {
        trimmed_end(text.drop_last())
    } else {
        text
    }
}

/// Without the white space at either end.
pub open spec fn trimmed(text: Seq<char>) -> Seq<char> {
    trimmed_end(trimmed_start(text))
}

/// A letter from A to Z in lower case; any other character as it is.
pub open spec fn ascii_lower(c: char) -> char {
    if 'A' <= c <= 'Z' {
        ((c as u32) + 32) as char
    } else {
        c
    }
}

/// The text with its letters from A to Z in lower case.
pub open spec fn ascii_lowered(text: Seq<char>) -> Seq<char> {
    text.map_values(|c: char| ascii_lower(c))
}

/// The stretches of a text between its white space, in order.
pub open spec fn words(text: Seq<char>) -> Seq<Seq<char>>
    decreases text.len(),
{
    if text.len() == 0 {
        Seq::empty()
    } else {
        let before = text.drop_last();
        if is_white_space(text.last()) {
            words(before)
        } else if before.len() == 0 || is_white_space(before.last()) {
            words(before).push(seq![text.last()])
        } else {
            words(before).drop_last().push(words(before).last().push(text.last()))
        }
    }
}

/// The parts, joined by single spaces.
pub open spec fn joined(parts: Seq<Seq<char>>) -> Seq<char>
    decreases parts.len(),
{
    if parts.len() == 0 {
        Seq::empty()
    } else if parts.len() == 1 {
        parts[0]
    } else {
        joined(parts.drop_last()).push(' ') + parts.last()
    }
}

/// The words of a text, joined by single spaces.
pub open spec fn compacted(text: Seq<char>) -> Seq<char> {
    joined(words(text))
}

/// The longest first stretch of a text that takes at most `max` bytes in UTF-8.
pub open spec fn prefix_within(text: Seq<char>, max: nat) -> Seq<char>
    decreases text.len(),
{
    if text.len() == 0 || encode_utf8(text).len() <= max {
        text
    } else {
        prefix_within(text.drop_last(), max)
    }
}

/// A text that takes at most `max` bytes as it is; else its longest first stretch that does,
/// without the white space at its end.
pub open spec fn truncated(text: Seq<char>, max: nat) -> Seq<char> {
    if encode_utf8(text).len() <= max {
        text
    } else {
        trimmed_end(prefix_within(text, max))
    }
}

/// The decimal digits of a number.
pub open spec fn decimal(n: nat) -> Seq<char>
    decreases n,
{
    if n < 10 {
        seq![('0' as u32 + n) as char]
    } else {
        decimal(n / 10).push(('0' as u32 + n % 10) as char)
    }
}

/// The characters of a text.
fn chars_of(text: &str) -> (chars: Vec<char>)
    ensures
        chars@ == text@,
{
    let mut chars: Vec<char> = Vec::new();
    for c in it: text.chars()
        invariant
            it.seq() == text@,
            chars@ == text@.take(it.index() as int),
    {
        chars.push(c);
        assert(text@.take(it.index() + 1) == text@.take(it.index() as int).push(c));
    }
    assert(text@.take(text@.len() as int) == text@);
    chars
}

/// Whether two texts are the same.
pub fn same(a: &str, b: &str) -> (equal: bool)
    ensures
        equal == (a@ == b@),
{
    a.to_string() == b.to_string()
}

/// Whether a text starts with another.
pub fn starts_with(text: &str, prefix: &str) -> (found: bool)
    ensures
        found == prefix@.is_prefix_of(text@),
{
    let whole = chars_of(text);
    let start = chars_of(prefix);
    if start.len() > whole.len() {
        return false;
    }
    for i in 0..start.len()
        invariant
            whole@ == text@,
            start@ == prefix@,
            start@.len() <= whole@.len(),
            forall|j: int| 0 <= j < i ==> start@[j] == whole@[j],
    {
        if start[i] != whole[i] {
            assert(prefix@[i as int] != text@.subrange(0, prefix@.len() as int)[i as int]);
            return false;
        }
    }
    assert(prefix@ == text@.subrange(0, prefix@.len() as int));
    true
}

/// The code of a character in lower case.
fn lower_code(c: char) -> (code: u32)
    ensures
        code == ascii_lower(c) as u32,
{
    let code = c as u32;
    if 65 <= code && code <= 90 {
        code + 32
    } else {
        code
    }
}

/// Whether a text, with its letters from A to Z in lower case, is the other.
pub fn lowers_to(text: &str, lower: &str) -> (equal: bool)
    ensures
        equal == (ascii_lowered(text@) == lower@),
{
    let a = chars_of(text);
    let b = chars_of(lower);
    if a.len() != b.len() {
        return false;
    }
    for i in 0..a.len()
        invariant
            a@ == text@,
            b@ == lower@,
            a@.len() == b@.len(),
            forall|j: int| 0 <= j < i ==> ascii_lower(a@[j]) == b@[j],
    {
        let code = lower_code(a[i]);
        if code != b[i] as u32 {
            assert(ascii_lowered(text@)[i as int] != lower@[i as int]);
            return false;
        }
        proof {
            char_u32_cast(ascii_lower(a@[i as int]), code);
            char_u32_cast(b@[i as int], code);
        }
    }
    assert(ascii_lowered(text@) == lower@);
    true
}

proof fn lemma_trimmed_end_step(text: Seq<char>, n: int)
    requires
        0 < n <= text.len(),
        is_white_space(text[n - 1]),
    ensures
        trimmed_end(text.take(n)) == trimmed_end(text.take(n - 1)),
{
    assert(text.take(n).drop_last() == text.take(n - 1));
}

/// The text without the white space at its end.
pub fn trim_end(text: &str) -> (rest: &str)
    ensures
        rest@ == trimmed_end(text@),
{
    let chars = chars_of(text);
    let mut n: usize = chars.len();
    assert(text@.take(n as int) == text@);
    while n > 0 && chars[n - 1].is_whitespace()
        invariant
            chars@ == text@,
            n <= chars@.len(),
            trimmed_end(text@.take(n as int)) == trimmed_end(text@),
        decreases n,
    {
        proof {
            lemma_trimmed_end_step(text@, n as int);
        }
        n = n - 1;
    }
    text.substring_char(0, n)
}

/// The text without the white space at either end.
pub fn trim(text: &str) -> (rest: &str)
    ensures
        rest@ == trimmed(text@),
{
    let chars = chars_of(text);
    let mut n: usize = 0;
    assert(text@.skip(0) == text@);
    while n < chars.len() && chars[n].is_whitespace()
        invariant
            chars@ == text@,
            n <= chars@.len(),
            trimmed_start(text@.skip(n as int)) == trimmed_start(text@),
        decreases chars@.len() - n,
    {
        assert(text@.skip(n as int).drop_first() == text@.skip(n + 1));
        n = n + 1;
    }
    assert(trimmed_start(text@) == text@.skip(n as int));
    trim_end(text.substring_char(n, chars.len()))
}

proof fn lemma_words(text: Seq<char>)
    ensures
        text.len() > 0 && !is_white_space(text.last()) ==> words(text).len() > 0,
        forall|i: int| 0 <= i < words(text).len() ==> (#[trigger] words(text)[i]).len() > 0,
    decreases text.len(),
{
    if text.len() > 0 {
        lemma_words(text.drop_last());
    }
}

proof fn lemma_joined_nonempty(parts: Seq<Seq<char>>)
    requires
        forall|i: int| 0 <= i < parts.len() ==> (#[trigger] parts[i]).len() > 0,
    ensures
        joined(parts).len() == 0 <==> parts.len() == 0,
{
}

/// How a character carries on the compacted text.
proof fn lemma_compacted_push(text: Seq<char>, c: char)
    ensures
        is_white_space(c) ==> compacted(text.push(c)) == compacted(text),
        !is_white_space(c) ==> compacted(text.push(c)) == (if text.len() > 0 && is_white_space(
            text.last(),
        ) && compacted(text).len() > 0 {
            compacted(text).push(' ').push(c)
        } else {
            compacted(text).push(c)
        }),
{
    let before = words(text);
    let after = words(text.push(c));
    assert(text.push(c).drop_last() == text);
    lemma_words(text);
    lemma_words(text.push(c));
    lemma_joined_nonempty(before);
    if !is_white_space(c) {
        assert(joined(seq![seq![c]]) == seq![c]);
        if text.len() == 0 || is_white_space(text.last()) {
            assert(after.drop_last() == before);
            if before.len() == 0 {
                assert(joined(before).push(c) == seq![c]);
            } else {
                assert(joined(after) == joined(before).push(' ') + seq![c]);
                assert(joined(before).push(' ') + seq![c] == joined(before).push(' ').push(c));
            }
        } else {
            assert(after.drop_last() == before.drop_last());
            assert(after.last() == before.last().push(c));
            if before.len() > 1 {
                assert(joined(before.drop_last()).push(' ') + before.last().push(c) == (joined(
                    before.drop_last(),
                ).push(' ') + before.last()).push(c));
            }
        }
    }
}

/// The words of a text, joined by single spaces.
pub fn compact(text: &str) -> (short: String)
    ensures
        short@ == compacted(text@),
{
    let chars = chars_of(text);
    let mut short = String::new();
    let mut pending = false;
    for i in 0..chars.len()
        invariant
            chars@ == text@,
            short@ == compacted(text@.take(i as int)),
            pending == (i > 0 && is_white_space(text@[i - 1]) && short@.len() > 0),
    {
        let c = chars[i];
        proof {
            lemma_compacted_push(text@.take(i as int), c);
            assert(text@.take(i + 1) == text@.take(i as int).push(c));
        }
        if c.is_whitespace() {
            pending = !short.as_str().is_empty();
        } else {
            if pending {
                short.push(' ');
            }
            short.push(c);
            pending = false;
        }
    }
    assert(text@.take(text@.len() as int) == text@);
    short
}

/// The contents of the strings, in order.
pub open spec fn contents(strings: Seq<String>) -> Seq<Seq<char>> {
    strings.map_values(|s: String| s@)
}

/// The strings, joined by single spaces.
pub fn join(strings: &Vec<String>) -> (text: String)
    ensures
        text@ == joined(contents(strings@)),
{
    let mut text = String::new();
    for i in 0..strings.len()
        invariant
            text@ == joined(contents(strings@).take(i as int)),
    {
        let ghost parts = contents(strings@);
        if i > 0 {
            text.push(' ');
        }
        text.append(strings[i].as_str());
        proof {
            assert(parts.take(i + 1).drop_last() == parts.take(i as int));
            assert(parts.take(i + 1).last() == parts[i as int]);
            if i == 0 {
                assert(Seq::<char>::empty() + parts[0] == parts[0]);
            }
        }
    }
    assert(contents(strings@).take(strings@.len() as int) == contents(strings@));
    text
}

/// The first `n` characters of a text, or all of it if it has fewer.
pub fn first_chars(text: &str, n: usize) -> (start: &str)
    ensures
        start@ == (if n <= text@.len() {
            text@.take(n as int)
        } else {
            text@
        }),
{
    let len = text.unicode_len();
    if n <= len {
        text.substring_char(0, n)
    } else {
        text
    }
}

/// The decimal digits of a number.
pub fn decimal_text(n: u64) -> (text: String)
    ensures
        text@ == decimal(n as nat),
    decreases n,
{
    let mut text = if n < 10 {
        String::new()
    } else {
        decimal_text(n / 10)
    };
    let digit = digit_char((n % 10) as u8);
    text.push(digit);
    assert(text@ == decimal(n as nat));
    text
}

proof fn lemma_encode_concat(a: Seq<char>, b: Seq<char>)
    ensures
        encode_utf8(a + b) == encode_utf8(a) + encode_utf8(b),
    decreases a.len(),
{
    if a.len() == 0 {
        assert(a + b == b);
    } else {
        assert((a + b).drop_first() == a.drop_first() + b);
        lemma_encode_concat(a.drop_first(), b);
    }
}

/// A stretch is encoded in no more bytes than a longer one, and in fewer if it is shorter.
proof fn lemma_encode_grows(text: Seq<char>, i: int, j: int)
    requires
        0 <= i <= j <= text.len(),
    ensures
        encode_utf8(text.take(i)).len() <= encode_utf8(text.take(j)).len(),
        i < j ==> encode_utf8(text.take(i)).len() < encode_utf8(text.take(j)).len(),
{
    let more = text.subrange(i, j);
    assert(text.take(j) == text.take(i) + more);
    lemma_encode_concat(text.take(i), more);
}

/// A text is encoded character by character, so each of its first stretches ends at a boundary.
proof fn lemma_stretch_ends_at_boundary(text: Seq<char>, n: int)
    requires
        0 <= n <= text.len(),
    ensures
        is_char_boundary(encode_utf8(text), encode_utf8(text.take(n)).len() as int),
    decreases n,
{
    let bytes = encode_utf8(text);
    encode_utf8_valid_utf8(text);
    if n == 0 {
        assert(text.take(0).len() == 0);
    } else {
        let rest = text.drop_first();
        let head = encode_scalar(text[0] as u32);
        encode_utf8_first_scalar(text);
        assert(pop_first_scalar(bytes) == encode_utf8(rest));
        assert(text.take(n).drop_first() == rest.take(n - 1));
        lemma_stretch_ends_at_boundary(rest, n - 1);
        lemma_encode_grows(text, n, text.len() as int);
        assert(text.take(text.len() as int) == text);
    }
}

/// Which stretch the longest one is.
proof fn lemma_prefix_within(text: Seq<char>, max: nat, n: int)
    requires
        0 <= n < text.len(),
        encode_utf8(text.take(n)).len() <= max,
        encode_utf8(text.take(n + 1)).len() > max,
    ensures
        prefix_within(text, max) == text.take(n),
    decreases text.len(),
{
    lemma_encode_grows(text, n + 1, text.len() as int);
    assert(text.take(text.len() as int) == text);
    let front = text.drop_last();
    assert(front.take(n) == text.take(n));
    if n < front.len() {
        assert(front.take(n + 1) == text.take(n + 1));
        lemma_prefix_within(front, max, n);
    } else {
        assert(front == text.take(n));
    }
}

/// Cuts a text that takes more than `max_bytes` bytes at the last boundary of characters within
/// them, and trims the end of what is left.
pub fn truncate_utf8(text: &str, max_bytes: usize) -> (short: String)
    ensures
        short@ == truncated(text@, max_bytes as nat),
{
    let ghost bytes = encode_utf8(text@);
    if text.as_bytes().len() <= max_bytes {
        return text.to_string();
    }
    proof {
        encode_utf8_valid_utf8(text@);
        is_char_boundary_start_end_of_seq(bytes);
    }
    let mut end: usize = max_bytes;
    while !text.is_char_boundary(end)
        invariant
            bytes == encode_utf8(text@),
            end <= max_bytes < bytes.len(),
            is_char_boundary(bytes, 0),
            forall|k: int| end < k <= max_bytes ==> !is_char_boundary(bytes, k),
        decreases end,
    {
        end = end - 1;
    }
    let (front, back) = text.split_at(end);
    proof {
        let n = front@.len() as int;
        encode_utf8_decode_utf8(text@);
        encode_utf8_decode_utf8(front@);
        encode_utf8_decode_utf8(back@);
        decode_utf8_split(bytes, end as int);
        assert(text@ == front@ + back@);
        assert(text@.take(n) == front@);
        assert(back@.len() > 0) by {
            if back@.len() == 0 {
                assert(text@ == front@);
            }
        }
        lemma_stretch_ends_at_boundary(text@, n + 1);
        lemma_encode_grows(text@, n, n + 1);
        lemma_prefix_within(text@, max_bytes as nat, n);
    }
    trim_end(front).to_string()
}

proof fn lemma_trimmed_end(text: Seq<char>)
    ensures
        trimmed_end(text).is_prefix_of(text),
        trimmed_end(text).len() > 0 ==> !is_white_space(trimmed_end(text).last()),
    decreases text.len(),
{
    if text.len() > 0 && is_white_space(text.last()) {
        lemma_trimmed_end(text.drop_last());
        assert(trimmed_end(text) == text.subrange(0, trimmed_end(text).len() as int));
    } else {
        assert(text == text.subrange(0, text.len() as int));
    }
}

proof fn lemma_prefix_within_fits(text: Seq<char>, max: nat)
    ensures
        prefix_within(text, max).is_prefix_of(text),
        encode_utf8(prefix_within(text, max)).len() <= max,
    decreases text.len(),
{
    if text.len() == 0 || encode_utf8(text).len() <= max {
        assert(text == text.subrange(0, text.len() as int));
    } else {
        lemma_prefix_within_fits(text.drop_last(), max);
        let short = prefix_within(text, max);
        assert(short == text.subrange(0, short.len() as int));
    }
}

/// A truncated text takes no more bytes than it may, and is a first stretch of the text.
pub proof fn truncation_fits(text: Seq<char>, max: nat)
    ensures
        encode_utf8(truncated(text, max)).len() <= max,
        truncated(text, max).is_prefix_of(text),
{
    if encode_utf8(text).len() <= max {
        assert(text == text.subrange(0, text.len() as int));
    } else {
        let cut = prefix_within(text, max);
        let short = trimmed_end(cut);
        lemma_prefix_within_fits(text, max);
        lemma_trimmed_end(cut);
        lemma_encode_grows(cut, short.len() as int, cut.len() as int);
        assert(cut.take(short.len() as int) == short);
        assert(cut.take(cut.len() as int) == cut);
        assert(short == text.subrange(0, short.len() as int));
    }
}

/// To truncate a truncated text again changes nothing.
pub proof fn truncation_is_stable(text: Seq<char>, max: nat)
    ensures
        truncated(truncated(text, max), max) == truncated(text, max),
{
    truncation_fits(text, max);
}

/// What was cut off was too much: one character more, and a text that is cut would take more
/// bytes than it may.
pub proof fn truncation_keeps_all_that_fits(text: Seq<char>, max: nat, n: int)
    requires
        0 <= n <= text.len(),
        encode_utf8(text.take(n)).len() <= max,
    ensures
        n <= prefix_within(text, max).len(),
    decreases text.len(),
{
    if text.len() > 0 && encode_utf8(text).len() > max {
        let front = text.drop_last();
        if n == text.len() {
            assert(text.take(n) == text);
        } else {
            assert(front.take(n) == text.take(n));
            truncation_keeps_all_that_fits(front, max, n);
        }
    }
}

/// White space that is trimmed makes no difference.
proof fn lemma_trimmed_between(text: Seq<char>, k: int)
    requires
        trimmed_end(text).len() <= k <= text.len(),
    ensures
        trimmed_end(text.take(k)) == trimmed_end(text),
    decreases text.len(),
{
    if k == text.len() {
        assert(text.take(k) == text);
    } else {
        assert(text.drop_last().take(k) == text.take(k));
        lemma_trimmed_between(text.drop_last(), k);
    }
}

/// What comes after the cut makes no difference to it.
proof fn lemma_prefix_of_stretch(text: Seq<char>, k: int, max: nat)
    requires
        0 <= k <= text.len(),
        encode_utf8(text.take(k)).len() > max,
    ensures
        prefix_within(text.take(k), max) == prefix_within(text, max),
    decreases text.len(),
{
    if k == text.len() {
        assert(text.take(k) == text);
    } else {
        lemma_encode_grows(text, k, text.len() as int);
        assert(text.take(text.len() as int) == text);
        assert(text.drop_last().take(k) == text.take(k));
        lemma_prefix_of_stretch(text.drop_last(), k, max);
    }
}

/// To truncate in two steps is to truncate to the smaller limit, and a text truncated to a smaller
/// limit is a first stretch of the same text truncated to a larger one.
pub proof fn truncation_goes_by_the_smaller_limit(text: Seq<char>, smaller: nat, larger: nat)
    requires
        smaller <= larger,
    ensures
        truncated(truncated(text, larger), smaller) == truncated(text, smaller),
        truncated(text, smaller).is_prefix_of(truncated(text, larger)),
{
    let short = truncated(text, larger);
    if encode_utf8(text).len() > larger {
        let cut = prefix_within(text, larger);
        let shorter_cut = prefix_within(text, smaller);
        let k = short.len() as int;
        lemma_prefix_within_fits(text, larger);
        lemma_prefix_within_fits(text, smaller);
        lemma_trimmed_end(cut);
        assert(short == text.take(k));
        if encode_utf8(short).len() <= smaller {
            assert(shorter_cut == text.take(shorter_cut.len() as int));
            truncation_keeps_all_that_fits(text, larger, shorter_cut.len() as int);
            truncation_keeps_all_that_fits(text, smaller, k);
            assert(shorter_cut == cut.take(shorter_cut.len() as int));
            lemma_trimmed_between(cut, shorter_cut.len() as int);
        } else {
            lemma_prefix_of_stretch(text, k, smaller);
        }
    }
    truncation_fits(short, smaller);
}

/// A word is a stretch without white space.
proof fn lemma_words_are_solid(text: Seq<char>)
    ensures
        forall|i: int, j: int|
            0 <= i < words(text).len() && 0 <= j < words(text)[i].len() ==> !is_white_space(
                #[trigger] words(text)[i][j],
            ),
        forall|i: int| 0 <= i < words(text).len() ==> (#[trigger] words(text)[i]).len() > 0,
    decreases text.len(),
{
    lemma_words(text);
    if text.len() > 0 {
        let before = text.drop_last();
        lemma_words_are_solid(before);
        lemma_words(before);
        assert forall|i: int, j: int|
            0 <= i < words(text).len() && 0 <= j < words(text)[i].len() implies !is_white_space(
            #[trigger] words(text)[i][j],
        ) by {
            if i < words(before).len() && j < words(before)[i].len() {
                assert(words(text)[i][j] == words(before)[i][j]);
            } else {
                assert(words(text)[i][j] == text.last());
            }
        }
    }
}

/// A word after white space, or at the start, is one word more.
proof fn lemma_words_append(text: Seq<char>, word: Seq<char>)
    requires
        text.len() == 0 || is_white_space(text.last()),
        word.len() > 0,
        forall|j: int| 0 <= j < word.len() ==> !is_white_space(#[trigger] word[j]),
    ensures
        words(text + word) == words(text).push(word),
    decreases word.len(),
{
    let front = word.drop_last();
    assert((text + word).drop_last() == text + front);
    if front.len() == 0 {
        assert(text + front == text);
        assert(word == seq![word.last()]);
    } else {
        lemma_words_append(text, front);
        assert(front.push(word.last()) == word);
        assert(!is_white_space((text + front).last()));
        assert(words(text + word) == words(text).push(front).drop_last().push(
            front.push(word.last()),
        ));
    }
}

/// Joined words fall apart into the same words.
proof fn lemma_words_of_joined(parts: Seq<Seq<char>>)
    requires
        forall|i: int, j: int|
            0 <= i < parts.len() && 0 <= j < parts[i].len() ==> !is_white_space(
                #[trigger] parts[i][j],
            ),
        forall|i: int| 0 <= i < parts.len() ==> (#[trigger] parts[i]).len() > 0,
    ensures
        words(joined(parts)) == parts,
    decreases parts.len(),
{
    if parts.len() == 1 {
        lemma_words_append(Seq::empty(), parts[0]);
        assert(Seq::<char>::empty() + parts[0] == parts[0]);
        assert(words(Seq::<char>::empty()) == Seq::<Seq<char>>::empty());
    } else if parts.len() > 1 {
        let front = parts.drop_last();
        assert forall|i: int, j: int|
            0 <= i < front.len() && 0 <= j < front[i].len() implies !is_white_space(
            #[trigger] front[i][j],
        ) by {
            assert(front[i][j] == parts[i][j]);
        }
        lemma_words_of_joined(front);
        let spaced = joined(front).push(' ');
        assert(spaced.drop_last() == joined(front));
        assert forall|j: int| 0 <= j < parts.last().len() implies !is_white_space(
            #[trigger] parts.last()[j],
        ) by {
            assert(parts.last()[j] == parts[parts.len() - 1][j]);
        }
        lemma_words_append(spaced, parts.last());
    }
}

/// A compacted text has the same words, and to compact it again changes nothing.
pub proof fn compaction_keeps_the_words(text: Seq<char>)
    ensures
        words(compacted(text)) == words(text),
        compacted(compacted(text)) == compacted(text),
{
    lemma_words_are_solid(text);
    lemma_words_of_joined(words(text));
}

/// All white space in the text is single spaces.
pub open spec fn has_single_spaces(text: Seq<char>) -> bool {
    forall|i: int|
        0 <= i < text.len() && is_white_space(#[trigger] text[i]) ==> text[i] == ' ' && (i > 0
            ==> !is_white_space(text[i - 1]))
}

/// Joined words have single spaces between them and none at either end.
proof fn lemma_joined_spaces(parts: Seq<Seq<char>>)
    requires
        forall|i: int, j: int|
            0 <= i < parts.len() && 0 <= j < parts[i].len() ==> !is_white_space(
                #[trigger] parts[i][j],
            ),
        forall|i: int| 0 <= i < parts.len() ==> (#[trigger] parts[i]).len() > 0,
    ensures
        has_single_spaces(joined(parts)),
        joined(parts).len() > 0 ==> !is_white_space(joined(parts)[0]) && !is_white_space(
            joined(parts).last(),
        ),
    decreases parts.len(),
{
    if parts.len() == 1 {
        assert forall|i: int| 0 <= i < joined(parts).len() implies !is_white_space(
            #[trigger] joined(parts)[i],
        ) by {
            assert(joined(parts)[i] == parts[0][i]);
        }
    } else if parts.len() > 1 {
        let front = parts.drop_last();
        let last = parts.last();
        let text = joined(parts);
        assert forall|i: int, j: int|
            0 <= i < front.len() && 0 <= j < front[i].len() implies !is_white_space(
            #[trigger] front[i][j],
        ) by {
            assert(front[i][j] == parts[i][j]);
        }
        lemma_joined_spaces(front);
        lemma_joined_nonempty(front);
        let n = joined(front).len() as int;
        assert(forall|i: int| 0 <= i < n ==> text[i] == joined(front)[i]);
        assert(text[n] == ' ');
        assert forall|i: int| n < i < text.len() implies !is_white_space(#[trigger] text[i]) by {
            assert(text[i] == parts[parts.len() - 1][i - n - 1]);
        }
        assert(text[n - 1] == joined(front).last());
    }
}

/// The white space in a compacted text is single spaces, and there is none at either end.
pub proof fn compaction_leaves_single_spaces(text: Seq<char>)
    ensures
        has_single_spaces(compacted(text)),
        compacted(text).len() > 0 ==> !is_white_space(compacted(text)[0]) && !is_white_space(
            compacted(text).last(),
        ),
{
    lemma_words_are_solid(text);
    lemma_joined_spaces(words(text));
}

/// The character of a digit.
fn digit_char(d: u8) -> (c: char)
    requires
        d < 10,
    ensures
        c == ('0' as u32 + d) as char,
{
    (48 + d) as char
}

/// Where the text starts once the white space before it is gone.
proof fn lemma_trimmed_start(text: Seq<char>) -> (start: int)
    ensures
        0 <= start <= text.len(),
        trimmed_start(text) == text.skip(start),
        forall|k: int| 0 <= k < start ==> is_white_space(#[trigger] text[k]),
        start < text.len() ==> !is_white_space(text[start]),
    decreases text.len(),
{
    if text.len() > 0 && is_white_space(text[0]) {
        let rest = text.drop_first();
        let start = lemma_trimmed_start(rest);
        assert forall|k: int| 0 <= k < start + 1 implies is_white_space(#[trigger] text[k]) by {
            if k > 0 {
                assert(text[k] == rest[k - 1]);
            }
        }
        assert(rest.skip(start) == text.skip(start + 1));
        start + 1
    } else {
        assert(text.skip(0) == text);
        0
    }
}

/// All that is gone from the end is white space.
proof fn lemma_trimmed_rest(text: Seq<char>)
    ensures
        forall|k: int|
            trimmed_end(text).len() <= k < text.len() ==> is_white_space(#[trigger] text[k]),
    decreases text.len(),
{
    if text.len() > 0 && is_white_space(text.last()) {
        let front = text.drop_last();
        lemma_trimmed_rest(front);
        assert forall|k: int| trimmed_end(text).len() <= k < text.len() implies is_white_space(
            #[trigger] text[k],
        ) by {
            if k < front.len() {
                assert(text[k] == front[k]);
            }
        }
    }
}

/// `part` is what stands in the text from `start` to `end`, and all that stands outside is white
/// space.
pub open spec fn is_middle(text: Seq<char>, part: Seq<char>, start: int, end: int) -> bool {
    &&& 0 <= start <= end <= text.len()
    &&& part == text.subrange(start, end)
    &&& forall|k: int|
        0 <= k < text.len() && !(start <= k < end) ==> is_white_space(#[trigger] text[k])
}

/// To trim a text takes the white space before and after it, all of it and nothing else.
pub proof fn trimming_takes_the_white_space_around(text: Seq<char>)
    ensures
        exists|start: int, end: int| #[trigger] is_middle(text, trimmed(text), start, end),
        trimmed(text).len() > 0 ==> !is_white_space(trimmed(text)[0]) && !is_white_space(
            trimmed(text).last(),
        ),
        exists|end: int| #[trigger] is_middle(text, trimmed_end(text), 0, end),
        trimmed_end(text).len() > 0 ==> !is_white_space(trimmed_end(text).last()),
{
    let start = lemma_trimmed_start(text);
    let rest = text.skip(start);
    let part = trimmed(text);
    lemma_trimmed_end(rest);
    lemma_trimmed_rest(rest);
    let end = start + part.len();
    assert(part == text.subrange(start, end));
    assert forall|k: int| 0 <= k < text.len() && !(start <= k < end) implies is_white_space(
        #[trigger] text[k],
    ) by {
        if k >= end {
            assert(text[k] == rest[k - start]);
        }
    }
    assert(is_middle(text, part, start, end));
    if part.len() > 0 {
        assert(part[0] == text[start]);
    }
    lemma_trimmed_end(text);
    lemma_trimmed_rest(text);
    assert(is_middle(text, trimmed_end(text), 0, trimmed_end(text).len() as int));
}

/// A text that fits is kept as it is. Of one that does not, a first stretch is kept that fits and
/// does not end in white space, and no longer one is there.
pub proof fn truncation_keeps_the_longest_start(text: Seq<char>, max: nat, n: int)
    requires
        0 <= n <= text.len(),
    ensures
        encode_utf8(text).len() <= max ==> truncated(text, max) == text,
        truncated(text, max).is_prefix_of(text),
        encode_utf8(truncated(text, max)).len() <= max,
        encode_utf8(text).len() > max && truncated(text, max).len() > 0 ==> !is_white_space(
            truncated(text, max).last(),
        ),
        encode_utf8(text.take(n)).len() <= max && n > 0 && !is_white_space(text[n - 1])
            ==> text.take(n).is_prefix_of(truncated(text, max)),
{
    let short = truncated(text, max);
    truncation_fits(text, max);
    if encode_utf8(text).len() > max {
        let cut = prefix_within(text, max);
        lemma_prefix_within_fits(text, max);
        lemma_trimmed_end(cut);
        lemma_trimmed_rest(cut);
        if encode_utf8(text.take(n)).len() <= max && n > 0 && !is_white_space(text[n - 1]) {
            truncation_keeps_all_that_fits(text, max, n);
            assert(cut[n - 1] == text[n - 1]);
            assert(n <= short.len());
            assert(text.take(n) == short.subrange(0, n));
        }
    } else {
        assert(text.take(n) == text.subrange(0, n));
    }
}

/// A text is compacted character by character: white space adds nothing, and any other character
/// adds itself, after a space where white space parted it from what came before.
pub proof fn compaction_takes_up_each_character(text: Seq<char>, c: char)
    ensures
        compacted(Seq::empty()) == Seq::<char>::empty(),
        is_white_space(c) ==> compacted(text.push(c)) == compacted(text),
        !is_white_space(c) && compacted(text).len() == 0 ==> compacted(text.push(c)) == seq![c],
        !is_white_space(c) && compacted(text).len() > 0 && is_white_space(text.last())
            ==> compacted(text.push(c)) == compacted(text).push(' ').push(c),
        !is_white_space(c) && compacted(text).len() > 0 && !is_white_space(text.last())
            ==> compacted(text.push(c)) == compacted(text).push(c),
{
    lemma_compacted_push(text, c);
    assert(words(Seq::<char>::empty()) == Seq::<Seq<char>>::empty());
}

/// Joined parts stand one after the other, each whole, with a space between any two.
pub proof fn joining_puts_a_space_between(parts: Seq<Seq<char>>, part: Seq<char>)
    ensures
        joined(Seq::empty()) == Seq::<char>::empty(),
        joined(seq![part]) == part,
        parts.len() > 0 ==> joined(parts.push(part)) == joined(parts) + seq![' '] + part,
{
    assert(parts.push(part).drop_last() == parts);
    if parts.len() > 0 {
        assert(joined(parts).push(' ') + part == joined(parts) + seq![' '] + part);
    }
}

/// A number is written by its digits: the last one counts ones, and those before it tens.
pub proof fn numbers_are_written_in_tens(n: nat, digit: nat)
    requires
        digit < 10,
    ensures
        decimal(digit).len() == 1,
        decimal(digit)[0] as u32 == '0' as u32 + digit,
        n > 0 ==> decimal(n * 10 + digit) == decimal(n) + decimal(digit),
{
    if n > 0 {
        assert((n * 10 + digit) / 10 == n);
        assert((n * 10 + digit) % 10 == digit as int);
        assert(decimal(n).push(('0' as u32 + digit) as char) == decimal(n) + decimal(digit));
    }
}

/// In lower case a letter from A to Z is the one 32 places further on; any other character is
/// itself.
pub proof fn letters_have_a_lower_case(text: Seq<char>, i: int)
    requires
        0 <= i < text.len(),
    ensures
        ascii_lowered(text).len() == text.len(),
        65 <= text[i] as u32 <= 90 ==> ascii_lowered(text)[i] as u32 == text[i] as u32 + 32,
        !(65 <= text[i] as u32 <= 90) ==> ascii_lowered(text)[i] == text[i],
{
}

/// The contents of strings are the texts that they hold, each in its place.
pub proof fn strings_hold_their_texts(strings: Seq<String>, i: int)
    requires
        0 <= i < strings.len(),
    ensures
        contents(strings).len() == strings.len(),
        contents(strings)[i] == strings[i]@,
{
}

} // verus!
