//! Words and numbers in a line of text.

use vstd::prelude::*;

verus! {

/// Whether `c` is white space: a character with the Unicode property
/// `White_Space`.
pub open spec fn is_space(c: char) -> bool {
    let code = c as u32;
    ||| 0x09 <= code <= 0x0D
    ||| code == 0x20
    ||| code == 0x85
    ||| code == 0xA0
    ||| code == 0x1680
    ||| 0x2000 <= code <= 0x200A
    ||| code == 0x2028
    ||| code == 0x2029
    ||| code == 0x202F
    ||| code == 0x205F
    ||| code == 0x3000
}

/// Whether `c` is white space.
pub fn is_whitespace(c: char) -> (space: bool)
    ensures
        space == is_space(c),
{
    let code: u32 = c as u32;
    (0x09 <= code && code <= 0x0D) || code == 0x20 || code == 0x85 || code == 0xA0 || code
        == 0x1680 || (0x2000 <= code && code <= 0x200A) || code == 0x2028 || code == 0x2029
        || code == 0x202F || code == 0x205F || code == 0x3000
}

/// Where the word that holds position `start` ends: the first position from
/// `start` on that holds white space, or the end of the text.
pub open spec fn word_end(text: Seq<char>, start: int) -> int
    decreases text.len() - start,
{
    if start < 0 || start >= text.len() || is_space(text[start]) {
        start
    } else {
        word_end(text, start + 1)
    }
}

/// A word that begins at `start` ends behind `start` and within the text,
/// and it ends where the rest of it ends.
pub proof fn lemma_word_end_step(text: Seq<char>, start: int)
    requires
        0 <= start < text.len(),
        !is_space(text[start]),
    ensures
        word_end(text, start) == word_end(text, start + 1),
        start < word_end(text, start) <= text.len(),
    decreases text.len() - start,
{
    assert(word_end(text, start) == word_end(text, start + 1));
    if start + 1 < text.len() && !is_space(text[start + 1]) {
        lemma_word_end_step(text, start + 1);
    } else {
        assert(word_end(text, start + 1) == start + 1);
    }
}

/// The words of `text` from position `start` on: white space is passed
/// over, and what stands between two stretches of it is one word.
pub open spec fn words_from(text: Seq<char>, start: int) -> Seq<Seq<char>>
    decreases text.len() - start,
{
    if start < 0 || start >= text.len() {
        Seq::empty()
    } else if is_space(text[start]) {
        words_from(text, start + 1)
    } else {
        let end = word_end(text, start);
        proof {
            lemma_word_end_step(text, start);
        }
        seq![text.subrange(start, end)] + words_from(text, end)
    }
}

/// The words of `text`: its longest runs of characters that are not white
/// space, in the order in which they stand.
pub open spec fn words(text: Seq<char>) -> Seq<Seq<char>> {
    words_from(text, 0)
}

/// What a word of each entry spells.
pub open spec fn texts(tokens: Seq<&str>) -> Seq<Seq<char>> {
    Seq::new(tokens.len(), |i: int| tokens[i]@)
}

/// Whether `c` is one of the ten decimal digits of ASCII.
pub open spec fn is_digit(c: char) -> bool {
    0x30 <= c as u32 <= 0x39
}

/// The number that a string of decimal digits spells, the most significant
/// digit first; the empty string spells zero.
pub open spec fn digits_value(digits: Seq<char>) -> nat
    decreases digits.len(),
{
    if digits.len() == 0 {
        0
    } else {
        (digits_value(digits.drop_last()) * 10 + (digits.last() as u32 - 0x30)) as nat
    }
}

/// The digits of an unsigned decimal numeral: the word itself, without the
/// plus sign that may stand before it.
pub open spec fn numeral_digits(word: Seq<char>) -> Seq<char> {
    if word.len() > 0 && word[0] == '+' {
        word.subrange(1, word.len() as int)
    } else {
        word
    }
}

/// The number that `word` spells as an unsigned decimal numeral no larger
/// than `max`: an optional plus sign, then one or more decimal digits and
/// nothing else. Leading zeros are allowed. `None` where `word` is no such
/// numeral or spells a larger number.
pub open spec fn numeral_value(word: Seq<char>, max: nat) -> Option<nat> {
    let digits = numeral_digits(word);
    if digits.len() > 0 && (forall|i: int| 0 <= i < digits.len() ==> is_digit(#[trigger] digits[i]))
        && digits_value(digits) <= max {
        Some(digits_value(digits))
    } else {
        None
    }
}

/// The characters of `text`, one by one.
pub fn chars_of(text: &str) -> (chars: Vec<char>)
    ensures
        chars@ == text@,
{
    let mut chars: Vec<char> = Vec::new();
    for c in it: text.chars()
        invariant
            it.seq() == text@,
            chars@ == it.seq().subrange(0, it.index()),
    {
        chars.push(c);
    }
    chars
}

/// Whether `chars` spells `name`.
pub fn spells(chars: &Vec<char>, name: &str) -> (same: bool)
    ensures
        same == (chars@ == name@),
{
    let other = chars_of(name);
    if chars.len() != other.len() {
        return false;
    }
    let mut i: usize = 0;
    while i < chars.len()
        invariant
            i <= chars.len(),
            chars.len() == other.len(),
            other@ == name@,
            forall|j: int| 0 <= j < i ==> chars@[j] == other@[j],
        decreases chars.len() - i,
    {
        if chars[i] != other[i] {
            return false;
        }
        i = i + 1;
    }
    assert(chars@ =~= other@);
    true
}

/// Behind nothing but white space there is no word.
pub proof fn white_space_holds_no_word(text: Seq<char>, start: int)
    requires
        0 <= start,
        forall|i: int| start <= i < text.len() ==> is_space(#[trigger] text[i]),
    ensures
        words_from(text, start) == Seq::<Seq<char>>::empty(),
    decreases text.len() - start,
{
    if start < text.len() {
        assert(is_space(text[start]));
        white_space_holds_no_word(text, start + 1);
    }
}

/// No character of a word is white space.
proof fn lemma_word_is_solid(text: Seq<char>, start: int, at: int)
    requires
        0 <= start <= at < word_end(text, start),
    ensures
        at < text.len(),
        !is_space(text[at]),
    decreases text.len() - start,
{
    if start < text.len() && !is_space(text[start]) {
        if at > start {
            lemma_word_is_solid(text, start + 1, at);
        }
    }
}

/// Every word from `start` on is a stretch of the text that holds at least
/// one character and no white space.
proof fn lemma_words_from_are_solid(text: Seq<char>, start: int, k: int)
    requires
        0 <= start,
        0 <= k < words_from(text, start).len(),
    ensures
        words_from(text, start)[k].len() > 0,
        forall|j: int|
            0 <= j < words_from(text, start)[k].len() ==> !is_space(
                #[trigger] words_from(text, start)[k][j],
            ),
    decreases text.len() - start,
{
    if start < text.len() {
        if is_space(text[start]) {
            lemma_words_from_are_solid(text, start + 1, k);
        } else {
            let end = word_end(text, start);
            lemma_word_end_step(text, start);
            if k == 0 {
                let word = text.subrange(start, end);
                assert(words_from(text, start)[0] == word);
                assert forall|j: int| 0 <= j < word.len() implies !is_space(#[trigger] word[j]) by {
                    lemma_word_is_solid(text, start, start + j);
                }
            } else {
                assert(words_from(text, start)[k] == words_from(text, end)[k - 1]);
                lemma_words_from_are_solid(text, end, k - 1);
            }
        }
    }
}

/// Every word of a text holds at least one character and no white space.
pub proof fn words_hold_no_white_space(text: Seq<char>)
    ensures
        forall|k: int|
            0 <= k < words(text).len() ==> (#[trigger] words(text)[k]).len() > 0 && forall|
                j: int,
            |
                0 <= j < words(text)[k].len() ==> !is_space(#[trigger] words(text)[k][j]),
{
    assert forall|k: int| 0 <= k < words(text).len() implies (#[trigger] words(text)[k]).len() > 0
        && forall|j: int|
        0 <= j < words(text)[k].len() ==> !is_space(#[trigger] words(text)[k][j]) by {
        lemma_words_from_are_solid(text, 0, k);
    }
}

/// Splits `line` into its words.
pub fn tokenize(line: &str) -> (tokens: Vec<&str>)
    ensures
        texts(tokens@) == words(line@),
{
    let chars = chars_of(line);
    let n: usize = chars.len();
    let mut tokens: Vec<&str> = Vec::new();
    let mut i: usize = 0;
    assert(texts(tokens@) + words_from(line@, 0) =~= words(line@));
    while i < n
        invariant
            chars@ == line@,
            n == chars.len(),
            i <= n,
            texts(tokens@) + words_from(line@, i as int) == words(line@),
        decreases n - i,
    {
        if is_whitespace(chars[i]) {
            i = i + 1;
        } else {
            let start: usize = i;
            let mut end: usize = i + 1;
            proof {
                lemma_word_end_step(line@, start as int);
            }
            while end < n && !is_whitespace(chars[end])
                invariant
                    chars@ == line@,
                    n == chars.len(),
                    start < end <= n,
                    word_end(line@, end as int) == word_end(line@, start as int),
                decreases n - end,
            {
                proof {
                    lemma_word_end_step(line@, end as int);
                }
                end = end + 1;
            }
            assert(word_end(line@, start as int) == end);
            let word = line.substring_char(start, end);
            let ghost before = tokens@;
            tokens.push(word);
            assert(texts(tokens@) =~= texts(before) + seq![line@.subrange(start as int, end as int)]);
            i = end;
        }
    }
    assert(words_from(line@, i as int) =~= Seq::<Seq<char>>::empty());
    assert(texts(tokens@) + Seq::<Seq<char>>::empty() =~= texts(tokens@));
    tokens
}

/// The value of a numeral grows with every digit that follows.
proof fn lemma_digits_value_grows(digits: Seq<char>, k: int)
    requires
        0 <= k <= digits.len(),
        forall|i: int| 0 <= i < digits.len() ==> is_digit(#[trigger] digits[i]),
    ensures
        digits_value(digits.subrange(0, k)) <= digits_value(digits),
    decreases digits.len() - k,
{
    if k == digits.len() {
        assert(digits.subrange(0, k) =~= digits);
    } else {
        lemma_digits_value_grows(digits, k + 1);
        let longer = digits.subrange(0, k + 1);
        assert(longer.drop_last() =~= digits.subrange(0, k));
        assert(is_digit(digits[k]));
        assert(longer.last() == digits[k]);
    }
}

/// Reads `word` as an unsigned decimal numeral no larger than `max`.
pub fn parse_unsigned(word: &str, max: u32) -> (number: Option<u32>)
    ensures
        match numeral_value(word@, max as nat) {
            Some(value) => number == Some(value as u32),
            None => number.is_none(),
        },
{
    let chars = chars_of(word);
    let n: usize = chars.len();
    let first: usize = if n > 0 && chars[0] == '+' {
        1
    } else {
        0
    };
    let ghost digits = numeral_digits(word@);
    assert(digits =~= word@.subrange(first as int, n as int));
    if first == n {
        return None;
    }
    let mut value: u64 = 0;
    let mut i: usize = first;
    assert(digits.subrange(0, 0) =~= Seq::<char>::empty());
    while i < n
        invariant
            chars@ == word@,
            n == chars.len(),
            first <= i <= n,
            first < n,
            digits == numeral_digits(word@),
            digits == word@.subrange(first as int, n as int),
            forall|j: int| 0 <= j < i - first ==> is_digit(#[trigger] digits[j]),
            value == digits_value(digits.subrange(0, i - first)),
            value <= max,
        decreases n - i,
    {
        let c: char = chars[i];
        let code: u32 = c as u32;
        if code < 0x30 || code > 0x39 {
            assert(!is_digit(digits[i - first]));
            return None;
        }
        let ghost shorter = digits.subrange(0, i - first);
        let ghost longer = digits.subrange(0, i - first + 1);
        assert(longer.drop_last() =~= shorter);
        assert(longer.last() == c);
        value = value * 10 + (code - 0x30) as u64;
        assert(value == digits_value(longer));
        if value > max as u64 {
            proof {
                if forall|j: int| 0 <= j < digits.len() ==> is_digit(#[trigger] digits[j]) {
                    lemma_digits_value_grows(digits, i - first + 1);
                }
            }
            return None;
        }
        i = i + 1;
    }
    assert(digits.subrange(0, n - first) =~= digits);
    Some(value as u32)
}

} // verus!
