//! The cookie that carries a creator's session: the creator's number, a
//! plus sign, and the session's token.

use crate::encoding::{base64_url_no_pad, encode_url_no_pad, is_url_safe};
use crate::error::Error;
use vstd::prelude::*;
use vstd::string::{StrSliceExecFns, StringExecFns};

verus! {

/// The value of a decimal digit, if the character is one.
pub open spec fn digit_value(c: char) -> Option<int> {
    if c == '0' {
        Some(0)
    } else if c == '1' {
        Some(1)
    } else if c == '2' {
        Some(2)
    } else if c == '3' {
        Some(3)
    } else if c == '4' {
        Some(4)
    } else if c == '5' {
        Some(5)
    } else if c == '6' {
        Some(6)
    } else if c == '7' {
        Some(7)
    } else if c == '8' {
        Some(8)
    } else if c == '9' {
        Some(9)
    } else {
        None
    }
}

/// The digit for a value below ten.
pub open spec fn digit_char(value: int) -> char {
    if value == 0 {
        '0'
    } else if value == 1 {
        '1'
    } else if value == 2 {
        '2'
    } else if value == 3 {
        '3'
    } else if value == 4 {
        '4'
    } else if value == 5 {
        '5'
    } else if value == 6 {
        '6'
    } else if value == 7 {
        '7'
    } else if value == 8 {
        '8'
    } else {
        '9'
    }
}

/// Whether the text is made of decimal digits alone.
pub open spec fn is_digits(text: Seq<char>) -> bool {
    forall|i: int| 0 <= i < text.len() ==> (#[trigger] digit_value(text[i])) is Some
}

/// The number that a text of decimal digits stands for.
pub open spec fn digits_value(text: Seq<char>) -> int
    decreases text.len(),
{
    if text.len() == 0 {
        0
    } else {
        digits_value(text.drop_last()) * 10 + match digit_value(text.last()) {
            Some(d) => d,
            None => 0,
        }
    }
}

/// The number that `text` stands for, as an `i64` is read: an optional
/// sign, then one decimal digit or more, and a value within the type's
/// range.
pub open spec fn parsed_i64(text: Seq<char>) -> Option<i64> {
    let signed = text.len() > 0 && (text[0] == '-' || text[0] == '+');
    let digits = if signed {
        text.drop_first()
    } else {
        text
    };
    let value = if text.len() > 0 && text[0] == '-' {
        -digits_value(digits)
    } else {
        digits_value(digits)
    };
    if digits.len() > 0 && is_digits(digits) && i64::MIN <= value <= i64::MAX {
        Some(value as i64)
    } else {
        None
    }
}

/// The decimal digits of a number, without leading zeros.
pub open spec fn decimal(n: nat) -> Seq<char>
    decreases n,
{
    if n < 10 {
        seq![digit_char(n as int)]
    } else {
        decimal(n / 10).push(digit_char((n % 10) as int))
    }
}

/// How an `i64` is written: a minus sign if it is negative, then its
/// decimal digits.
pub open spec fn shown_i64(value: i64) -> Seq<char> {
    if value < 0 {
        seq!['-'] + decimal((-value) as nat)
    } else {
        decimal(value as nat)
    }
}

/// Where the cookie's one plus sign stands, if it has exactly one.
pub open spec fn only_plus(cookie: Seq<char>, at: int) -> bool {
    &&& 0 <= at < cookie.len()
    &&& cookie[at] == '+'
    &&& forall|j: int| 0 <= j < cookie.len() && j != at ==> cookie[j] != '+'
}

/// The two parts of a cookie: what stands before its plus sign and what
/// stands after it. A cookie without a plus sign, or with more than one,
/// has no parts.
pub open spec fn cookie_parts(cookie: Seq<char>) -> Option<(Seq<char>, Seq<char>)> {
    if exists|at: int| only_plus(cookie, at) {
        let at = choose|at: int| only_plus(cookie, at);
        Some((cookie.subrange(0, at), cookie.subrange(at + 1, cookie.len() as int)))
    } else {
        None
    }
}

proof fn lemma_prefix_value(text: Seq<char>, upto: int)
    requires
        is_digits(text),
        0 <= upto <= text.len(),
    ensures
        0 <= digits_value(text.subrange(0, upto)) <= digits_value(text),
    decreases text.len() - upto,
{
    if upto == text.len() {
        assert(text.subrange(0, upto) =~= text);
        lemma_digits_nonnegative(text);
    } else {
        let longer = text.subrange(0, upto + 1);
        assert(longer.drop_last() =~= text.subrange(0, upto));
        assert(digit_value(text[upto]) is Some);
        assert(longer.last() == text[upto]);
        lemma_prefix_value(text, upto + 1);
        assert(is_digits(text.subrange(0, upto))) by {
            assert forall|i: int| 0 <= i < upto implies (#[trigger] digit_value(
                text.subrange(0, upto)[i],
            )) is Some by {
                assert(digit_value(text[i]) is Some);
            }
        }
        lemma_digits_nonnegative(text.subrange(0, upto));
    }
}

proof fn lemma_digits_nonnegative(text: Seq<char>)
    requires
        is_digits(text),
    ensures
        digits_value(text) >= 0,
    decreases text.len(),
{
    if text.len() > 0 {
        assert(is_digits(text.drop_last())) by {
            assert forall|i: int| 0 <= i < text.drop_last().len() implies (#[trigger] digit_value(
                text.drop_last()[i],
            )) is Some by {
                assert(digit_value(text[i]) is Some);
            }
        }
        lemma_digits_nonnegative(text.drop_last());
        assert(digit_value(text[text.len() - 1]) is Some);
    }
}

proof fn lemma_decimal_reads_back(n: nat)
    ensures
        decimal(n).len() > 0,
        is_digits(decimal(n)),
        digits_value(decimal(n)) == n,
        digit_value(decimal(n)[0]) is Some,
    decreases n,
{
    if n < 10 {
        let text = decimal(n);
        assert(text.len() == 1);
        assert(text.drop_last() =~= Seq::<char>::empty());
        assert(digits_value(text.drop_last()) == 0);
        assert(digit_value(text[0]) == Some(n as int));
    } else {
        lemma_decimal_reads_back(n / 10);
        let front = decimal(n / 10);
        let text = decimal(n);
        assert(text.drop_last() =~= front);
        assert(text.last() == digit_char((n % 10) as int));
        assert(digit_value(text.last()) == Some((n % 10) as int));
        assert(text[0] == front[0]);
        assert forall|i: int| 0 <= i < text.len() implies (#[trigger] digit_value(
            text[i],
        )) is Some by {
            if i < front.len() {
                assert(text[i] == front[i]);
                assert(digit_value(front[i]) is Some);
            }
        }
    }
}

/// What is written of a number is read back as that number.
pub proof fn lemma_shown_number_reads_back(value: i64)
    ensures
        parsed_i64(shown_i64(value)) == Some(value),
{
    let text = shown_i64(value);
    if value < 0 {
        let digits = decimal((-value) as nat);
        lemma_decimal_reads_back((-value) as nat);
        assert(text[0] == '-');
        assert(text.drop_first() =~= digits);
    } else {
        lemma_decimal_reads_back(value as nat);
        assert(text[0] != '-' && text[0] != '+');
    }
}

fn digit(c: char) -> (value: Option<u8>)
    ensures
        match value {
            Some(d) => digit_value(c) == Some(d as int) && d < 10,
            None => digit_value(c) is None,
        },
{
    match c {
        '0' => Some(0),
        '1' => Some(1),
        '2' => Some(2),
        '3' => Some(3),
        '4' => Some(4),
        '5' => Some(5),
        '6' => Some(6),
        '7' => Some(7),
        '8' => Some(8),
        '9' => Some(9),
        _ => None,
    }
}

/// Reads an `i64` from its decimal text.
pub fn parse_i64(text: &str) -> (parsed: Option<i64>)
    ensures
        parsed == parsed_i64(text@),
{
    let len = text.unicode_len();
    if len == 0 {
        return None;
    }
    let first = text.get_char(0);
    let negative = first == '-';
    let start: usize = if first == '-' || first == '+' {
        1
    } else {
        0
    };
    if start == len {
        return None;
    }
    let ghost digits = text@.subrange(start as int, len as int);
    assert(digits =~= if start == 1 {
        text@.drop_first()
    } else {
        text@
    });
    let limit: i128 = if negative {
        9223372036854775808
    } else {
        9223372036854775807
    };
    let mut value: i128 = 0;
    let mut i: usize = start;
    while i < len
        invariant
            start <= i <= len,
            len == text@.len(),
            len > 0,
            negative == (text@[0] == '-'),
            (start == 1) == (text@[0] == '-' || text@[0] == '+'),
            digits == text@.subrange(start as int, len as int),
            digits == (if start == 1 {
                text@.drop_first()
            } else {
                text@
            }),
            is_digits(digits.subrange(0, i - start)),
            value == digits_value(digits.subrange(0, i - start)),
            0 <= value <= limit,
            limit == (if negative {
                9223372036854775808i128
            } else {
                9223372036854775807i128
            }),
        decreases len - i,
    {
        let ghost read = digits.subrange(0, i - start);
        let ghost longer = digits.subrange(0, i - start + 1);
        assert(longer.drop_last() =~= read);
        assert(longer.last() == text@[i as int]);
        match digit(text.get_char(i)) {
            None => {
                assert(digit_value(digits[i - start]) is None);
                return None;
            },
            Some(d) => {
                assert(is_digits(longer)) by {
                    assert forall|k: int| 0 <= k < longer.len() implies (#[trigger] digit_value(
                        longer[k],
                    )) is Some by {
                        if k < read.len() {
                            assert(longer[k] == read[k]);
                            assert(digit_value(read[k]) is Some);
                        }
                    }
                }
                value = value * 10 + d as i128;
                if value > limit {
                    proof {
                        if is_digits(digits) {
                            lemma_prefix_value(digits, i - start + 1);
                        }
                    }
                    return None;
                }
            },
        }
        i += 1;
    }
    assert(digits.subrange(0, len - start) =~= digits);
    if negative {
        Some((-value) as i64)
    } else {
        Some(value as i64)
    }
}

fn digit_text(value: u8) -> (text: &'static str)
    requires
        value < 10,
    ensures
        text@ == seq![digit_char(value as int)],
{
    proof {
        reveal_strlit("0");
        reveal_strlit("1");
        reveal_strlit("2");
        reveal_strlit("3");
        reveal_strlit("4");
        reveal_strlit("5");
        reveal_strlit("6");
        reveal_strlit("7");
        reveal_strlit("8");
        reveal_strlit("9");
    }
    let text = match value {
        0 => "0",
        1 => "1",
        2 => "2",
        3 => "3",
        4 => "4",
        5 => "5",
        6 => "6",
        7 => "7",
        8 => "8",
        _ => "9",
    };
    assert(text@ =~= seq![digit_char(value as int)]);
    text
}

/// The digits that are written for the values in `low_first`, which lists
/// them from the lowest place up.
spec fn written(low_first: Seq<u8>) -> Seq<char> {
    Seq::new(low_first.len(), |i: int| digit_char(low_first[low_first.len() - 1 - i] as int))
}

/// Writes an `i64` in decimal.
pub fn show_i64(value: i64) -> (text: String)
    ensures
        text@ == shown_i64(value),
{
    let magnitude: u64 = if value < 0 {
        (-(value as i128)) as u64
    } else {
        value as u64
    };
    let mut low_first: Vec<u8> = Vec::new();
    low_first.push((magnitude % 10) as u8);
    let mut rest: u64 = magnitude / 10;
    assert(decimal(magnitude as nat) =~= (if rest > 0 {
        decimal(rest as nat)
    } else {
        Seq::<char>::empty()
    }) + written(low_first@));
    while rest > 0
        invariant
            low_first@.len() > 0,
            forall|k: int| 0 <= k < low_first@.len() ==> low_first@[k] < 10,
            decimal(magnitude as nat) == (if rest > 0 {
                decimal(rest as nat)
            } else {
                Seq::<char>::empty()
            }) + written(low_first@),
        decreases rest,
    {
        let ghost before = low_first@;
        let ghost high = decimal(rest as nat);
        low_first.push((rest % 10) as u8);
        assert(written(low_first@) =~= seq![digit_char((rest % 10) as int)] + written(before));
        assert(high =~= (if rest / 10 > 0 {
            decimal((rest / 10) as nat)
        } else {
            Seq::<char>::empty()
        }) + seq![digit_char((rest % 10) as int)]);
        rest = rest / 10;
        assert(decimal(magnitude as nat) =~= (if rest > 0 {
            decimal(rest as nat)
        } else {
            Seq::<char>::empty()
        }) + written(low_first@));
    }
    let mut text = String::new();
    if value < 0 {
        proof {
            reveal_strlit("-");
        }
        text.append("-");
    }
    let ghost sign = text@;
    assert(sign =~= if value < 0 {
        seq!['-']
    } else {
        Seq::<char>::empty()
    });
    let mut left: usize = low_first.len();
    while left > 0
        invariant
            left <= low_first@.len(),
            forall|k: int| 0 <= k < low_first@.len() ==> low_first@[k] < 10,
            text@ == sign + written(low_first@).subrange(0, low_first@.len() - left),
        decreases left,
    {
        left -= 1;
        text.append(digit_text(low_first[left]));
        assert(text@ =~= sign + written(low_first@).subrange(0, low_first@.len() - left));
    }
    assert(written(low_first@).subrange(0, low_first@.len() as int) =~= written(low_first@));
    assert(text@ =~= shown_i64(value));
    text
}

/// Splits a cookie at its plus sign. A cookie with no plus sign, or with
/// more than one, is not split.
pub fn split_cookie<'a>(cookie: &'a str) -> (parts: Option<(&'a str, &'a str)>)
    ensures
        match parts {
            Some((creator, token)) => cookie_parts(cookie@) == Some((creator@, token@)),
            None => cookie_parts(cookie@) is None,
        },
{
    let len = cookie.unicode_len();
    let mut at: usize = 0;
    while at < len && cookie.get_char(at) != '+'
        invariant
            at <= len,
            len == cookie@.len(),
            forall|j: int| 0 <= j < at ==> cookie@[j] != '+',
        decreases len - at,
    {
        at += 1;
    }
    if at == len {
        assert forall|k: int| !only_plus(cookie@, k) by {}
        return None;
    }
    let mut i: usize = at + 1;
    while i < len
        invariant
            at < i <= len,
            len == cookie@.len(),
            cookie@[at as int] == '+',
            forall|j: int| 0 <= j < i && j != at ==> cookie@[j] != '+',
        decreases len - i,
    {
        if cookie.get_char(i) == '+' {
            assert forall|k: int| !only_plus(cookie@, k) by {
                if only_plus(cookie@, k) {
                    if k == at {
                        assert(cookie@[i as int] == '+');
                    } else {
                        assert(cookie@[at as int] == '+');
                    }
                }
            }
            return None;
        }
        i += 1;
    }
    assert(only_plus(cookie@, at as int));
    assert forall|k: int| only_plus(cookie@, k) implies k == at by {
        if k != at {
            assert(cookie@[at as int] == '+');
        }
    }
    Some((cookie.substring_char(0, at), cookie.substring_char(at + 1, len)))
}

/// The number of random bytes that a session's token is made from.
pub const TOKEN_BYTES: usize = 32;

/// The token made from `bytes`, which the caller draws at random: their
/// unpadded URL-safe base64 text. It holds no plus sign, so a cookie made
/// with it can be split again.
pub fn token_text(bytes: &[u8; 32]) -> (token: String)
    ensures
        token@ == base64_url_no_pad(bytes@),
        token@.len() == 43,
        forall|i: int| 0 <= i < token@.len() ==> is_url_safe(#[trigger] token@[i]),
        forall|i: int| 0 <= i < token@.len() ==> token@[i] != '+',
{
    encode_url_no_pad(bytes.as_slice())
}

/// What a session's cookie says: whose session it is, and the session's
/// token.
#[derive(Clone, Debug, PartialEq, Eq)]
pub struct SessionCookie {
    pub creator: i64,
    pub token: String,
}

/// A session as the durable store keeps it.
#[derive(Clone, Debug, PartialEq, Eq)]
pub struct CreatorSession {
    pub creator: i64,
    pub token: String,
    /// When the session was made, in seconds.
    pub creation_time: i64,
}

impl SessionCookie {
    /// The cookie for a new session of `creator` under `token`.
    pub fn new(creator: i64, token: String) -> (cookie: Self)
        ensures
            cookie == (SessionCookie { creator, token }),
    {
        SessionCookie { creator, token }
    }

    /// The cookie of a session that the store holds.
    pub fn from_session(session: CreatorSession) -> (cookie: Self)
        ensures
            cookie == (SessionCookie { creator: session.creator, token: session.token }),
    {
        SessionCookie { creator: session.creator, token: session.token }
    }

    /// The cookie's text: the creator's number, a plus sign, the token.
    pub open spec fn text(self) -> Seq<char> {
        shown_i64(self.creator) + seq!['+'] + self.token@
    }

    pub fn to_cookie(&self) -> (text: String)
        ensures
            text@ == self.text(),
    {
        proof {
            reveal_strlit("+");
        }
        let mut text = show_i64(self.creator);
        text.append("+");
        text.append(self.token.as_str());
        assert(text@ =~= self.text());
        text
    }

    /// Reads a cookie. One that has no two parts, or whose first part is no
    /// number, is refused as not logged in.
    pub fn from_cookie(cookie: &str) -> (read: Result<Self, Error>)
        ensures
            match cookie_parts(cookie@) {
                Some((creator, token)) => match parsed_i64(creator) {
                    Some(id) => read is Ok && read->Ok_0.creator == id && read->Ok_0.token@
                        == token,
                    None => read == Err::<Self, Error>(Error::NotLoggedIn),
                },
                None => read == Err::<Self, Error>(Error::NotLoggedIn),
            },
    {
        match split_cookie(cookie) {
            Some((creator, token)) => match parse_i64(creator) {
                Some(id) => Ok(SessionCookie { creator: id, token: token.to_owned() }),
                None => Err(Error::NotLoggedIn),
            },
            None => Err(Error::NotLoggedIn),
        }
    }
}

/// A cookie that was written is read back as it was, as long as its token
/// holds no plus sign.
pub proof fn lemma_cookie_reads_back(cookie: SessionCookie)
    requires
        forall|i: int| 0 <= i < cookie.token@.len() ==> cookie.token@[i] != '+',
    ensures
        cookie_parts(cookie.text()) == Some((shown_i64(cookie.creator), cookie.token@)),
        parsed_i64(shown_i64(cookie.creator)) == Some(cookie.creator),
{
    let number = shown_i64(cookie.creator);
    let text = cookie.text();
    let at = number.len() as int;
    lemma_shown_number_reads_back(cookie.creator);
    lemma_shown_has_no_plus(cookie.creator);
    assert(text[at] == '+');
    assert forall|j: int| 0 <= j < text.len() && j != at implies text[j] != '+' by {
        if j < at {
            assert(text[j] == number[j]);
        } else {
            assert(text[j] == cookie.token@[j - at - 1]);
        }
    }
    assert(only_plus(text, at));
    assert forall|k: int| only_plus(text, k) implies k == at by {}
    assert(text.subrange(0, at) =~= number);
    assert(text.subrange(at + 1, text.len() as int) =~= cookie.token@);
}

/// A cookie whose token is URL-safe text, as every token made by
/// [`token_text`] is, is read back as it was written.
pub proof fn lemma_cookie_with_url_safe_token_reads_back(cookie: SessionCookie)
    requires
        forall|i: int| 0 <= i < cookie.token@.len() ==> is_url_safe(#[trigger] cookie.token@[i]),
    ensures
        cookie_parts(cookie.text()) == Some((shown_i64(cookie.creator), cookie.token@)),
        parsed_i64(shown_i64(cookie.creator)) == Some(cookie.creator),
{
    assert forall|i: int| 0 <= i < cookie.token@.len() implies cookie.token@[i] != '+' by {
        assert(is_url_safe(cookie.token@[i]));
    }
    lemma_cookie_reads_back(cookie);
}

proof fn lemma_shown_has_no_plus(value: i64)
    ensures
        forall|i: int| 0 <= i < shown_i64(value).len() ==> shown_i64(value)[i] != '+',
{
    let text = shown_i64(value);
    if value < 0 {
        let digits = decimal((-value) as nat);
        lemma_decimal_reads_back((-value) as nat);
        assert forall|i: int| 0 <= i < text.len() implies text[i] != '+' by {
            if i > 0 {
                assert(text[i] == digits[i - 1]);
                assert(digit_value(digits[i - 1]) is Some);
            }
        }
    } else {
        lemma_decimal_reads_back(value as nat);
        assert forall|i: int| 0 <= i < text.len() implies text[i] != '+' by {
            assert(digit_value(text[i]) is Some);
        }
    }
}

} // verus!
