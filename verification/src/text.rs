//! Small operations on text: prefixes, trailing slashes, hosts and decimal numbers.
use crate::bytes::same_text;
use vstd::prelude::*;

verus! {

/// Whether a text begins with another.
pub open spec fn has_prefix(text: Seq<char>, prefix: Seq<char>) -> bool {
    &&& prefix.len() <= text.len()
    &&& text.subrange(0, prefix.len() as int) == prefix
}

/// Returns whether a text begins with another.
pub fn starts_with(text: &str, prefix: &str) -> (res: bool)
    ensures
        res == has_prefix(text@, prefix@),
{
    let length: usize = prefix.unicode_len();
    if text.unicode_len() < length {
        return false;
    }
    same_text(text.substring_char(0, length), prefix)
}

/// A text without its trailing slashes.
pub open spec fn without_trailing_slashes(text: Seq<char>) -> Seq<char>
    decreases text.len(),
{
    if text.len() > 0 && text.last() == '/' {
        without_trailing_slashes(text.drop_last())
    } else {
        text
    }
}

/// Returns a text without its trailing slashes.
pub fn trim_trailing_slashes(text: &str) -> (res: &str)
    ensures
        res@ == without_trailing_slashes(text@),
{
    let mut end: usize = text.unicode_len();
    assert(text@.subrange(0, end as int) =~= text@);
    while end > 0 && text.get_char(end - 1) == '/'
        invariant
            end <= text@.len(),
            without_trailing_slashes(text@.subrange(0, end as int)) == without_trailing_slashes(
                text@,
            ),
        decreases end,
    {
        assert(text@.subrange(0, end as int).drop_last() =~= text@.subrange(0, end - 1));
        end -= 1;
    }
    text.substring_char(0, end)
}

/// The number that a sequence of decimal digits denotes.
pub open spec fn decimal_value(digits: Seq<char>) -> nat
    decreases digits.len(),
{
    if digits.len() == 0 {
        0
    } else {
        decimal_value(digits.drop_last()) * 10 + (digits.last() as int - '0' as int) as nat
    }
}

/// Whether a text holds decimal digits alone.
pub open spec fn all_digits(text: Seq<char>) -> bool {
    forall|i: int| 0 <= i < text.len() ==> '0' <= #[trigger] text[i] <= '9'
}

/// The decimal digits of a text behind one optional plus sign.
pub open spec fn unsigned_digits(text: Seq<char>) -> Seq<char> {
    if text.len() > 0 && text[0] == '+' {
        text.skip(1)
    } else {
        text
    }
}

/// The unsigned decimal number that a text spells, where it is at most `limit`.
pub open spec fn decimal_number(text: Seq<char>, limit: u64) -> Option<u64> {
    let digits = unsigned_digits(text);
    if digits.len() > 0 && all_digits(digits) && decimal_value(digits) <= limit {
        Some(decimal_value(digits) as u64)
    } else {
        None
    }
}

proof fn lemma_decimal_prefix(digits: Seq<char>, length: int)
    requires
        0 <= length <= digits.len(),
        all_digits(digits),
    ensures
        decimal_value(digits.subrange(0, length)) <= decimal_value(digits),
    decreases digits.len() - length,
{
    if length < digits.len() {
        lemma_decimal_prefix(digits, length + 1);
        let longer = digits.subrange(0, length + 1);
        assert(longer.drop_last() =~= digits.subrange(0, length));
    } else {
        assert(digits.subrange(0, length) =~= digits);
    }
}

/// Parses an unsigned decimal number of at most `limit`, with an optional plus sign.
pub fn parse_decimal(text: &str, limit: u64) -> (res: Option<u64>)
    ensures
        res == decimal_number(text@, limit),
{
    let length: usize = text.unicode_len();
    let ghost digits = unsigned_digits(text@);
    let start: usize = if length > 0 && text.get_char(0) == '+' {
        1
    } else {
        0
    };
    if start == length {
        return None;
    }
    let mut value: u64 = 0;
    let mut position: usize = start;
    assert(digits =~= text@.skip(start as int));
    assert(digits.subrange(0, 0) =~= Seq::<char>::empty());
    while position < length
        invariant
            start <= position <= length,
            length == text@.len(),
            digits == text@.skip(start as int),
            digits == unsigned_digits(text@),
            value == decimal_value(digits.subrange(0, position - start)),
            value <= limit,
            all_digits(digits.subrange(0, position - start)),
        decreases length - position,
    {
        let character = text.get_char(position);
        let ghost before = digits.subrange(0, position - start);
        let ghost after = digits.subrange(0, position - start + 1);
        assert(digits[position - start] == character);
        if !(character >= '0' && character <= '9') {
            assert(!all_digits(digits));
            return None;
        }
        assert(after.drop_last() =~= before);
        let digit: u64 = (character as u32 - '0' as u32) as u64;
        assert(decimal_value(after) == value * 10 + digit);
        if value > (u64::MAX - digit) / 10 || value * 10 + digit > limit {
            proof {
                if all_digits(digits) {
                    lemma_decimal_prefix(digits, position - start + 1);
                }
            }
            return None;
        }
        value = value * 10 + digit;
        position += 1;
        assert(all_digits(after)) by {
            assert forall|i: int| 0 <= i < after.len() implies '0' <= #[trigger] after[i] <= '9' by {
                if i < before.len() {
                    assert(before[i] == after[i]);
                }
            }
        }
    }
    assert(digits.subrange(0, position - start) =~= digits);
    Some(value)
}

/// Where the authority of a URL ends that begins at a position: where a path, a query or a
/// fragment begins, or at the end.
pub open spec fn authority_end(url: Seq<char>, from: int) -> int
    decreases url.len() - from,
{
    if from >= url.len() || url[from] == '/' || url[from] == '\\' || url[from] == '?' || url[from]
        == '#' {
        from
    } else {
        authority_end(url, from + 1)
    }
}

/// Where the host begins in an authority from one position to another: behind the user
/// information, where there is any.
pub open spec fn host_start(url: Seq<char>, from: int, end: int) -> int
    decreases end - from,
{
    if end <= from || url[end - 1] == '@' {
        end
    } else {
        host_start(url, from, end - 1)
    }
}

/// The host of a URL behind a scheme of a given length, with its port where it has one.
pub open spec fn host_and_port(url: Seq<char>, scheme: int) -> Seq<char> {
    let end = authority_end(url, scheme);
    url.subrange(host_start(url, scheme, end), end)
}

/// Returns the host of a URL behind a scheme of a given length, with its port where it has
/// one.
pub fn authority_host(url: &str, scheme: usize) -> (res: &str)
    requires
        scheme <= url@.len(),
    ensures
        res@ == host_and_port(url@, scheme as int),
{
    let length: usize = url.unicode_len();
    let mut end: usize = scheme;
    while end < length && url.get_char(end) != '/' && url.get_char(end) != '\\' && url.get_char(end)
        != '?' && url.get_char(end) != '#'
        invariant
            scheme <= end <= length,
            length == url@.len(),
            authority_end(url@, end as int) == authority_end(url@, scheme as int),
        decreases length - end,
    {
        end += 1;
    }
    let mut start: usize = end;
    while start > scheme && url.get_char(start - 1) != '@'
        invariant
            scheme <= start <= end,
            end <= url@.len(),
            host_start(url@, scheme as int, start as int) == host_start(
                url@,
                scheme as int,
                end as int,
            ),
        decreases start,
    {
        start -= 1;
    }
    url.substring_char(start, end)
}

/// Whether a port, or nothing, follows a host.
pub open spec fn port_or_end(rest: Seq<char>) -> bool {
    rest.len() == 0 || rest[0] == ':'
}

/// Whether at most `most` decimal digits, then possibly the dot of a fully qualified name,
/// complete a host.
pub open spec fn octet_completes(rest: Seq<char>, most: nat) -> bool
    decreases most,
{
    if most > 0 && rest.len() > 0 && '0' <= rest[0] <= '9' {
        octet_completes(rest.skip(1), (most - 1) as nat)
    } else if rest.len() > 0 && rest[0] == '.' {
        port_or_end(rest.skip(1))
    } else {
        port_or_end(rest)
    }
}

/// Whether a host is a loopback literal: `127.0.0.1`, an address whose last octet continues
/// it with one or two digits, or `[::1]`.
pub open spec fn is_loopback_host(host: Seq<char>) -> bool {
    ||| has_prefix(host, "127.0.0.1"@) && octet_completes(host.skip("127.0.0.1"@.len() as int), 2)
    ||| has_prefix(host, "[::1]"@) && port_or_end(host.skip("[::1]"@.len() as int))
}

/// Returns whether a host is a loopback literal.
pub fn is_loopback(host: &str) -> (res: bool)
    ensures
        res == is_loopback_host(host@),
{
    let length: usize = host.unicode_len();
    if starts_with(host, "[::1]") {
        let position: usize = "[::1]".unicode_len();
        proof {
            reveal_strlit("[::1]");
            reveal_strlit("127.0.0.1");
            assert(host@[0] == host@.subrange(0, 5)[0]);
            if has_prefix(host@, "127.0.0.1"@) {
                assert(host@[0] == host@.subrange(0, 9)[0]);
            }
        }
        return position == length || host.get_char(position) == ':';
    }
    if !starts_with(host, "127.0.0.1") {
        return false;
    }
    let mut position: usize = "127.0.0.1".unicode_len();
    let mut most: u8 = 2;
    while most > 0 && position < length && host.get_char(position) >= '0' && host.get_char(
        position,
    ) <= '9'
        invariant
            position <= length,
            length == host@.len(),
            octet_completes(host@.skip(position as int), most as nat) == octet_completes(
                host@.skip("127.0.0.1"@.len() as int),
                2,
            ),
        decreases most,
    {
        assert(host@.skip(position as int).skip(1) =~= host@.skip(position + 1));
        position += 1;
        most -= 1;
    }
    if position < length && host.get_char(position) == '.' {
        assert(host@.skip(position as int).skip(1) =~= host@.skip(position + 1));
        position += 1;
        return position == length || host.get_char(position) == ':';
    }
    position == length || host.get_char(position) == ':'
}

/// The Unicode white-space characters.
pub open spec fn is_white_space(character: char) -> bool {
    ||| '\u{9}' <= character <= '\u{d}'
    ||| character == ' '
    ||| character == '\u{85}'
    ||| character == '\u{a0}'
    ||| character == '\u{1680}'
    ||| '\u{2000}' <= character <= '\u{200a}'
    ||| character == '\u{2028}'
    ||| character == '\u{2029}'
    ||| character == '\u{202f}'
    ||| character == '\u{205f}'
    ||| character == '\u{3000}'
}

fn white_space(character: char) -> (res: bool)
    ensures
        res == is_white_space(character),
{
    ('\u{9}' <= character && character <= '\u{d}') || character == ' ' || character == '\u{85}'
        || character == '\u{a0}' || character == '\u{1680}' || ('\u{2000}' <= character && character
        <= '\u{200a}') || character == '\u{2028}' || character == '\u{2029}' || character
        == '\u{202f}' || character == '\u{205f}' || character == '\u{3000}'
}

/// A text without the white space at its start and end.
pub open spec fn trimmed(text: Seq<char>) -> Seq<char>
    decreases text.len(),
{
    if text.len() == 0 {
        text
    } else if is_white_space(text.first()) {
        trimmed(text.drop_first())
    } else if is_white_space(text.last()) {
        trimmed(text.drop_last())
    } else {
        text
    }
}

/// Removes the white space at the start and end of a text.
pub fn trim(text: &str) -> (res: &str)
    ensures
        res@ == trimmed(text@),
{
    let length: usize = text.unicode_len();
    let mut start: usize = 0;
    assert(text@.subrange(0, length as int) =~= text@);
    while start < length && white_space(text.get_char(start))
        invariant
            start <= length == text@.len(),
            trimmed(text@) == trimmed(text@.subrange(start as int, length as int)),
        decreases length - start,
    {
        let ghost rest = text@.subrange(start as int, length as int);
        assert(rest.first() == text@[start as int]);
        assert(rest.drop_first() =~= text@.subrange(start + 1, length as int));
        start += 1;
    }
    let mut end: usize = length;
    while start < end && white_space(text.get_char(end - 1))
        invariant
            start <= end <= length == text@.len(),
            start < length ==> !is_white_space(text@[start as int]),
            trimmed(text@) == trimmed(text@.subrange(start as int, end as int)),
        decreases end,
    {
        let ghost rest = text@.subrange(start as int, end as int);
        assert(rest.first() == text@[start as int]);
        assert(rest.last() == text@[end - 1]);
        assert(rest.drop_last() =~= text@.subrange(start as int, end - 1));
        end -= 1;
    }
    let ghost rest = text@.subrange(start as int, end as int);
    proof {
        if start < end {
            assert(rest.first() == text@[start as int]);
            assert(rest.last() == text@[end - 1]);
        }
    }
    text.substring_char(start, end)
}

/// All trailing slashes are taken off, and nothing else.
pub proof fn only_trailing_slashes_are_taken(text: Seq<char>)
    ensures
        ({
            let kept = without_trailing_slashes(text);
            &&& kept.len() <= text.len()
            &&& kept == text.subrange(0, kept.len() as int)
            &&& kept.len() > 0 ==> kept.last() != '/'
            &&& forall|i: int| kept.len() <= i < text.len() ==> #[trigger] text[i] == '/'
        }),
    decreases text.len(),
{
    if text.len() > 0 && text.last() == '/' {
        let shorter = text.drop_last();
        only_trailing_slashes_are_taken(shorter);
        let kept = without_trailing_slashes(text);
        assert(kept =~= text.subrange(0, kept.len() as int));
        assert forall|i: int| kept.len() <= i < text.len() implies #[trigger] text[i] == '/' by {
            if i < shorter.len() {
                assert(shorter[i] == text[i]);
            }
        }
    } else {
        assert(text =~= text.subrange(0, text.len() as int));
    }
}

/// White space is what Unicode calls so, by code point.
pub proof fn white_space_is_unicode_white_space(character: char)
    ensures
        is_white_space(character) <==> {
            let code = character as int;
            ||| 9 <= code <= 13
            ||| code == 32
            ||| code == 133
            ||| code == 160
            ||| code == 5760
            ||| 8192 <= code <= 8202
            ||| code == 8232
            ||| code == 8233
            ||| code == 8239
            ||| code == 8287
            ||| code == 12288
        },
{
}

/// Whether a text is blank up to a start and from an end on.
spec fn blank_around(text: Seq<char>, start: int, end: int, blank: Set<char>) -> bool {
    &&& 0 <= start <= end <= text.len()
    &&& forall|i: int| 0 <= i < start ==> blank.contains(#[trigger] text[i])
    &&& forall|i: int| end <= i < text.len() ==> blank.contains(#[trigger] text[i])
}

proof fn lemma_blank_first(text: Seq<char>, start: int, end: int, blank: Set<char>)
    requires
        text.len() > 0,
        blank.contains(text[0]),
        blank_around(text.drop_first(), start, end, blank),
    ensures
        blank_around(text, start + 1, end + 1, blank),
        text.drop_first().subrange(start, end) == text.subrange(start + 1, end + 1),
{
    let rest = text.drop_first();
    assert forall|i: int| 0 <= i < start + 1 implies blank.contains(#[trigger] text[i]) by {
        if i > 0 {
            assert(rest[i - 1] == text[i]);
        }
    }
    assert forall|i: int| end + 1 <= i < text.len() implies blank.contains(#[trigger] text[i]) by {
        assert(rest[i - 1] == text[i]);
    }
    assert(rest.subrange(start, end) =~= text.subrange(start + 1, end + 1));
}

proof fn lemma_blank_last(text: Seq<char>, start: int, end: int, blank: Set<char>)
    requires
        text.len() > 0,
        blank.contains(text.last()),
        blank_around(text.drop_last(), start, end, blank),
    ensures
        blank_around(text, start, end, blank),
        text.drop_last().subrange(start, end) == text.subrange(start, end),
{
    let rest = text.drop_last();
    assert forall|i: int| 0 <= i < start implies blank.contains(#[trigger] text[i]) by {
        assert(rest[i] == text[i]);
    }
    assert forall|i: int| end <= i < text.len() implies blank.contains(#[trigger] text[i]) by {
        if i < rest.len() {
            assert(rest[i] == text[i]);
        }
    }
    assert(rest.subrange(start, end) =~= text.subrange(start, end));
}

proof fn lemma_trimmed(text: Seq<char>, blank: Set<char>) -> (start: int)
    requires
        blank == Set::new(|character: char| is_white_space(character)),
    ensures
        blank_around(text, start, start + trimmed(text).len(), blank),
        trimmed(text) == text.subrange(start, start + trimmed(text).len()),
        trimmed(text).len() > 0 ==> !blank.contains(trimmed(text).first()) && !blank.contains(
            trimmed(text).last(),
        ),
    decreases text.len(),
{
    if text.len() == 0 {
        assert(text =~= text.subrange(0, 0));
        0
    } else if blank.contains(text.first()) {
        let inner = lemma_trimmed(text.drop_first(), blank);
        lemma_blank_first(text, inner, inner + trimmed(text).len(), blank);
        inner + 1
    } else if blank.contains(text.last()) {
        let inner = lemma_trimmed(text.drop_last(), blank);
        lemma_blank_last(text, inner, inner + trimmed(text).len(), blank);
        inner
    } else {
        assert(text =~= text.subrange(0, text.len() as int));
        0
    }
}

/// All white space around a text is taken off, and nothing else: what is kept begins where
/// only white space stood before and ends where only white space follows.
pub proof fn only_outer_white_space_is_taken(text: Seq<char>) -> (start: int)
    ensures
        0 <= start <= start + trimmed(text).len() <= text.len(),
        trimmed(text) == text.subrange(start, start + trimmed(text).len()),
        forall|i: int| 0 <= i < start ==> is_white_space(#[trigger] text[i]),
        forall|i: int|
            start + trimmed(text).len() <= i < text.len() ==> is_white_space(#[trigger] text[i]),
        trimmed(text).len() > 0 ==> !is_white_space(trimmed(text).first()) && !is_white_space(
            trimmed(text).last(),
        ),
{
    let blank = Set::new(|character: char| is_white_space(character));
    let start = lemma_trimmed(text, blank);
    let end = start + trimmed(text).len();
    assert forall|i: int| 0 <= i < start implies is_white_space(#[trigger] text[i]) by {
        assert(blank.contains(text[i]));
    }
    assert forall|i: int| end <= i < text.len() implies is_white_space(#[trigger] text[i]) by {
        assert(blank.contains(text[i]));
    }
    start
}

/// A decimal number is read digit by digit: a single digit is its own value, and one more
/// digit makes the number ten times as large and adds its value, up to the limit.
pub proof fn numbers_are_read_digit_by_digit(text: Seq<char>, digit: char, limit: u64)
    requires
        '0' <= digit <= '9',
    ensures
        decimal_number(seq![digit], limit) == if digit as int - 48 <= limit {
            Some((digit as int - 48) as u64)
        } else {
            None
        },
        decimal_number(text, u64::MAX) matches Some(value) ==> decimal_number(
            text.push(digit),
            limit,
        ) == if value * 10 + (digit as int - 48) <= limit {
            Some((value * 10 + (digit as int - 48)) as u64)
        } else {
            None
        },
{
    let single = seq![digit];
    assert(unsigned_digits(single) == single);
    assert(single.drop_last() =~= Seq::empty());
    assert(decimal_value(single.drop_last()) == 0);
    assert(single.last() == digit);
    assert(decimal_value(single) == (digit as int - 48) as nat);
    if decimal_number(text, u64::MAX) is Some {
        let digits = unsigned_digits(text);
        let longer = text.push(digit);
        assert(longer[0] == text[0]);
        assert(unsigned_digits(longer) =~= digits.push(digit));
        assert(digits.push(digit).drop_last() =~= digits);
        assert(digits.push(digit).last() == digit);
        assert(all_digits(digits.push(digit)));
    }
}

/// Only decimal digits make a number: nothing else is accepted but one plus sign in front,
/// which changes nothing, and no number is above its limit.
pub proof fn only_digits_make_numbers(text: Seq<char>, limit: u64)
    ensures
        decimal_number(text, limit) matches Some(value) ==> {
            &&& value <= limit
            &&& text.len() > 0
            &&& text[0] == '+' || '0' <= text[0] <= '9'
            &&& text[0] == '+' ==> text.len() > 1
            &&& forall|i: int| 1 <= i < text.len() ==> '0' <= #[trigger] text[i] <= '9'
        },
        text.len() > 0 && '0' <= text[0] <= '9' ==> decimal_number(seq!['+'] + text, limit)
            == decimal_number(text, limit),
{
    if decimal_number(text, limit) is Some {
        let digits = unsigned_digits(text);
        assert forall|i: int| 1 <= i < text.len() implies '0' <= #[trigger] text[i] <= '9' by {
            if text[0] == '+' {
                assert(digits[i - 1] == text[i]);
            } else {
                assert(digits[i] == text[i]);
            }
        }
        assert('0' <= digits[0] <= '9');
    }
    if text.len() > 0 && '0' <= text[0] <= '9' {
        assert((seq!['+'] + text).skip(1) =~= text);
    }
}

/// Whether a character ends the authority of a URL.
pub open spec fn ends_authority(character: char) -> bool {
    character == '/' || character == '\\' || character == '?' || character == '#'
}

proof fn lemma_authority_end(url: Seq<char>, from: int, end: int)
    requires
        0 <= from <= end <= url.len(),
        forall|i: int| from <= i < end ==> !ends_authority(#[trigger] url[i]),
        end < url.len() ==> ends_authority(url[end]),
    ensures
        authority_end(url, from) == end,
    decreases end - from,
{
    if from < end {
        assert(!ends_authority(url[from]));
        lemma_authority_end(url, from + 1, end);
    }
}

proof fn lemma_host_start(url: Seq<char>, from: int, at: int, end: int)
    requires
        0 <= from <= at <= end <= url.len(),
        forall|i: int| at <= i < end ==> #[trigger] url[i] != '@',
        from < at ==> url[at - 1] == '@',
    ensures
        host_start(url, from, end) == at,
    decreases end - at,
{
    if at < end {
        assert(url[end - 1] != '@');
        lemma_host_start(url, from, at, end - 1);
    }
}

/// The host of a URL is found behind the scheme and any credentials, and before the path,
/// the query or the fragment.
pub proof fn hosts_stand_behind_the_credentials(
    scheme: Seq<char>,
    credentials: Seq<char>,
    host: Seq<char>,
    rest: Seq<char>,
)
    requires
        forall|i: int| 0 <= i < credentials.len() ==> !ends_authority(#[trigger] credentials[i]),
        credentials.len() > 0 ==> credentials.last() == '@',
        forall|i: int|
            0 <= i < host.len() ==> !ends_authority(#[trigger] host[i]) && host[i] != '@',
        rest.len() > 0 ==> ends_authority(rest[0]),
    ensures
        host_and_port(scheme + credentials + host + rest, scheme.len() as int) == host,
{
    let url = scheme + credentials + host + rest;
    let from = scheme.len() as int;
    let at = from + credentials.len();
    let end = at + host.len();
    assert forall|i: int| from <= i < end implies !ends_authority(#[trigger] url[i]) by {
        if i < at {
            assert(url[i] == credentials[i - from]);
        } else {
            assert(url[i] == host[i - at]);
        }
    }
    assert forall|i: int| at <= i < end implies #[trigger] url[i] != '@' by {
        assert(url[i] == host[i - at]);
    }
    lemma_authority_end(url, from, end);
    lemma_host_start(url, from, at, end);
    assert(url.subrange(at, end) =~= host);
}

/// Whether a text is a run of a given number of decimal digits, then at most one full stop,
/// and then its end or a port.
pub open spec fn octet_end(rest: Seq<char>, digits: int) -> bool {
    let tail = rest.skip(digits);
    &&& 0 <= digits <= rest.len()
    &&& forall|i: int| 0 <= i < digits ==> '0' <= #[trigger] rest[i] <= '9'
    &&& tail.len() == 0 || tail[0] == ':' || (tail[0] == '.' && (tail.len() == 1 || tail[1]
        == ':'))
}

proof fn lemma_octet_end(rest: Seq<char>, most: nat)
    ensures
        octet_completes(rest, most) <==> exists|digits: int|
            0 <= digits <= most && #[trigger] octet_end(rest, digits),
    decreases most,
{
    assert(rest.skip(0) =~= rest);
    if most > 0 && rest.len() > 0 && '0' <= rest[0] <= '9' {
        let shorter = rest.skip(1);
        lemma_octet_end(shorter, (most - 1) as nat);
        if octet_completes(shorter, (most - 1) as nat) {
            let digits = choose|digits: int|
                0 <= digits <= most - 1 && #[trigger] octet_end(shorter, digits);
            assert(shorter.skip(digits) =~= rest.skip(digits + 1));
            assert forall|i: int| 0 <= i < digits + 1 implies '0' <= #[trigger] rest[i] <= '9' by {
                if i > 0 {
                    assert(shorter[i - 1] == rest[i]);
                }
            }
            assert(octet_end(rest, digits + 1));
        }
        if exists|digits: int| 0 <= digits <= most && #[trigger] octet_end(rest, digits) {
            let digits = choose|digits: int|
                0 <= digits <= most && #[trigger] octet_end(rest, digits);
            assert(digits > 0);
            assert(shorter.skip(digits - 1) =~= rest.skip(digits));
            assert forall|i: int| 0 <= i < digits - 1 implies '0' <= #[trigger] shorter[i]
                <= '9' by {
                assert(shorter[i] == rest[i + 1]);
            }
            assert(octet_end(shorter, digits - 1));
        }
    } else {
        if octet_completes(rest, most) {
            assert(rest.len() > 1 && rest[0] == '.' ==> rest.skip(1)[0] == rest[1]);
            assert(octet_end(rest, 0));
        }
        if exists|digits: int| 0 <= digits <= most && #[trigger] octet_end(rest, digits) {
            let digits = choose|digits: int|
                0 <= digits <= most && #[trigger] octet_end(rest, digits);
            if digits > 0 {
                assert('0' <= rest[0] <= '9');
            }
            assert(digits == 0);
            assert(rest.len() > 1 && rest[0] == '.' ==> rest.skip(1)[0] == rest[1]);
        }
    }
}

/// A host is a loopback address exactly where it is `[::1]`, or `127.0.0.1` with at most two
/// more digits in its last number and at most one full stop, and nothing but a port follows.
pub proof fn loopback_hosts_are_exact(host: Seq<char>)
    ensures
        is_loopback_host(host) <==> {
            ||| has_prefix(host, "127.0.0.1"@) && exists|digits: int|
                0 <= digits <= 2 && #[trigger] octet_end(host.skip(9), digits)
            ||| has_prefix(host, "[::1]"@) && (host.len() == 5 || host[5] == ':')
        },
{
    reveal_strlit("127.0.0.1");
    reveal_strlit("[::1]");
    lemma_octet_end(host.skip(9), 2);
    if host.len() > 5 {
        assert(host.skip(5)[0] == host[5]);
    }
}

/// A text begins with a prefix exactly where the prefix followed by some text makes it.
pub proof fn prefixes_are_continued(text: Seq<char>, prefix: Seq<char>)
    ensures
        has_prefix(text, prefix) <==> exists|rest: Seq<char>| text == #[trigger] (prefix + rest),
{
    if has_prefix(text, prefix) {
        let rest = text.skip(prefix.len() as int);
        assert forall|i: int| 0 <= i < prefix.len() implies text[i] == prefix[i] by {
            assert(text.subrange(0, prefix.len() as int)[i] == prefix[i]);
        }
        assert(text =~= prefix + rest);
    }
    if exists|rest: Seq<char>| text == #[trigger] (prefix + rest) {
        let rest = choose|rest: Seq<char>| text == #[trigger] (prefix + rest);
        assert(text.subrange(0, prefix.len() as int) =~= prefix);
    }
}

} // verus!
