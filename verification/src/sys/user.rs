//! Which user is meant by what was written.

use vstd::prelude::*;

verus! {

/// How to look a user up.
#[derive(Clone, Copy, Debug, PartialEq, Eq, Structural)]
pub enum UserQuery {
    /// The user that runs this program.
    Current,
    /// The user with this numeric id.
    ById { uid: u32 },
    /// The user whose name is the text that was given.
    ByName,
}

/// The value of a decimal digit, if the character is one.
pub open spec fn digit_value(c: char) -> Option<nat> {
    if '0' <= c && c <= '9' {
        Some((c as u32 - '0' as u32) as nat)
    } else {
        None
    }
}

/// Every character is a decimal digit.
pub open spec fn all_digits(s: Seq<char>) -> bool {
    forall|i: int| 0 <= i < s.len() ==> (digit_value(#[trigger] s[i]) is Some)
}

/// The number that a sequence of decimal digits writes.
pub open spec fn digits_value(s: Seq<char>) -> nat
    decreases s.len(),
{
    if s.len() == 0 {
        0
    } else {
        digits_value(s.drop_last()) * 10 + digit_value(s.last()).unwrap()
    }
}

/// The text without the plus sign that may lead it.
pub open spec fn unsigned_part(s: Seq<char>) -> Seq<char> {
    if s.len() > 0 && s[0] == '+' {
        s.drop_first()
    } else {
        s
    }
}

/// The number that a text writes, as the standard library reads unsigned
/// integers: an optional plus sign, then decimal digits, at least one and
/// nothing else, that write a number within range.
pub open spec fn spec_parse_u32(s: Seq<char>) -> Option<u32> {
    let digits = unsigned_part(s);
    if digits.len() > 0 && all_digits(digits) && digits_value(digits) <= u32::MAX {
        Some(digits_value(digits) as u32)
    } else {
        None
    }
}

/// Which user a text means: nothing means the current user, a number means
/// the user with that id, anything else is a name.
pub open spec fn spec_parse_user(user: Seq<char>) -> UserQuery {
    if user.len() == 0 {
        UserQuery::Current
    } else {
        match spec_parse_u32(user) {
            Some(uid) => UserQuery::ById { uid },
            None => UserQuery::ByName,
        }
    }
}

/// More digits never write a smaller number.
proof fn lemma_digits_value_grows(s: Seq<char>, n: int)
    requires
        0 <= n <= s.len(),
    ensures
        digits_value(s.subrange(0, n)) <= digits_value(s),
    decreases s.len(),
{
    if n == s.len() {
        assert(s.subrange(0, n) =~= s);
    } else {
        lemma_digits_value_grows(s.drop_last(), n);
        assert(s.drop_last().subrange(0, n) =~= s.subrange(0, n));
    }
}

fn digit_of(c: char) -> (r: Option<u32>)
    ensures
        match r {
            Some(d) => digit_value(c) == Some(d as nat) && d < 10,
            None => digit_value(c) is None,
        },
{
    if '0' <= c && c <= '9' {
        Some(c as u32 - '0' as u32)
    } else {
        None
    }
}

/// Reads an unsigned integer as the standard library does.
pub fn parse_u32(text: &str) -> (r: Option<u32>)
    ensures
        r == spec_parse_u32(text@),
{
    let len = text.unicode_len();
    if len == 0 {
        return None;
    }
    let first: usize = if text.get_char(0) == '+' {
        1
    } else {
        0
    };
    if first == len {
        return None;
    }
    let ghost digits = unsigned_part(text@);
    assert(digits =~= text@.subrange(first as int, len as int));
    let mut value: u32 = 0;
    let mut i: usize = first;
    while i < len
        invariant
            first <= i <= len,
            len == text@.len(),
            digits == unsigned_part(text@),
            digits == text@.subrange(first as int, len as int),
            all_digits(digits.subrange(0, i - first)),
            value == digits_value(digits.subrange(0, i - first)),
        decreases len - i,
    {
        let ghost seen = digits.subrange(0, i - first);
        let ghost next = digits.subrange(0, i - first + 1);
        assert(next.drop_last() =~= seen);
        assert(next.last() == text@[i as int]);
        let d = match digit_of(text.get_char(i)) {
            Some(d) => d,
            None => {
                assert(digit_value(digits[i - first]) is None);
                return None;
            },
        };
        assert(digits_value(next) == value * 10 + d);
        if value > (u32::MAX - d) / 10 {
            proof {
                assert(digits_value(next) > u32::MAX);
                lemma_digits_value_grows(digits, i - first + 1);
            }
            return None;
        }
        value = value * 10 + d;
        i += 1;
        assert forall|j: int| 0 <= j < next.len() implies digit_value(#[trigger] next[j]) is Some by {
            if j < seen.len() {
                assert(next[j] == seen[j]);
            }
        }
    }
    assert(digits.subrange(0, len - first) =~= digits);
    Some(value)
}

/// Says which user a text means: nothing means the current user, a number
/// means the user with that id, anything else is a name to look up.
pub fn parse_user(user: &str) -> (r: UserQuery)
    ensures
        r == spec_parse_user(user@),
{
    if user.unicode_len() == 0 {
        UserQuery::Current
    } else {
        match parse_u32(user) {
            Some(uid) => UserQuery::ById { uid },
            None => UserQuery::ByName,
        }
    }
}

} // verus!
