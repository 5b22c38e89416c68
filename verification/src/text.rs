//! Decimal numbers in text, and the two patterns that device nodes and the kernel module's
//! version are recognised by.
use vstd::prelude::*;
use vstd::string::*;

verus! {

/// Pattern of the name of a device node in [`crate::device_node::DEVICE_CARDS_DIR`].
pub const CARD_PATTERN: &'static str = "^card([0-9]+)$";

/// Pattern of the version in [`crate::MOD_VERSION_FILE`].
pub const VERSION_PATTERN: &'static str = "(?P<maj>[0-9]+)\\.(?P<min>[0-9]+)\\.(?P<pat>[0-9]+)";

pub open spec fn is_digit(c: char) -> bool {
    '0' <= c <= '9'
}

/// A nonempty run of ASCII digits.
pub open spec fn is_digits(s: Seq<char>) -> bool {
    s.len() > 0 && forall|i: int| 0 <= i < s.len() ==> is_digit(#[trigger] s[i])
}

/// The number that a run of decimal digits stands for.
pub open spec fn decimal_value(s: Seq<char>) -> nat
    decreases s.len(),
{
    if s.len() == 0 {
        0
    } else {
        10 * decimal_value(s.drop_last()) + (s.last() as int - '0' as int) as nat
    }
}

/// The shortest decimal notation of `n`.
pub open spec fn decimal(n: nat) -> Seq<char>
    decreases n,
{
    if n < 10 {
        seq![('0' as int + n) as char]
    } else {
        decimal(n / 10).push(('0' as int + n % 10) as char)
    }
}

/// The bytes of ASCII text.
pub open spec fn ascii(s: Seq<char>) -> Seq<u8> {
    s.map_values(|c: char| c as u8)
}

/// Reading a number's decimal notation gives the number back.
pub proof fn decimal_round_trip(n: nat)
    ensures
        is_digits(decimal(n)),
        decimal_value(decimal(n)) == n,
    decreases n,
{
    if n < 10 {
        assert(decimal(n).drop_last() =~= Seq::<char>::empty());
        assert(decimal_value(decimal(n).drop_last()) == 0);
    } else {
        decimal_round_trip(n / 10);
        assert(decimal(n).drop_last() =~= decimal(n / 10));
    }
}

/// Each digit that is appended to digits multiplies their number by ten and adds its own. Digits
/// count up from `0`, and no digits stand for nothing.
pub proof fn digits_count_by_tens(s: Seq<char>, c: char)
    requires
        is_digit(c),
    ensures
        decimal_value(Seq::empty()) == 0,
        decimal_value(s.push(c)) == 10 * decimal_value(s) + (c as int - 48),
{
    assert(s.push(c).drop_last() =~= s);
}

/// Zeros before digits do not change the number that they stand for.
pub proof fn leading_zeros_do_not_count(s: Seq<char>)
    ensures
        decimal_value(seq!['0'] + s) == decimal_value(s),
    decreases s.len(),
{
    let t = seq!['0'] + s;
    if s.len() == 0 {
        assert(t.drop_last() =~= Seq::<char>::empty());
        assert(decimal_value(t.drop_last()) == 0);
    } else {
        leading_zeros_do_not_count(s.drop_last());
        assert(t.drop_last() =~= seq!['0'] + s.drop_last());
    }
}

/// The decimal notation of a number begins with a zero only if it is that of zero, and then it is
/// nothing else.
pub proof fn decimal_is_shortest(n: nat)
    ensures
        decimal(n).len() > 0,
        decimal(n)[0] == '0' <==> n == 0,
        n == 0 <==> decimal(n) == seq!['0'],
    decreases n,
{
    if n >= 10 {
        decimal_is_shortest(n / 10);
        assert(decimal(n)[0] == decimal(n / 10)[0]);
    }
    if n == 0 {
        assert(decimal(n) =~= seq!['0']);
    }
}

/// A digit is one of the ten characters from `0` to `9`, and digits are one or more of them.
pub proof fn digits_are_digits(c: char, s: Seq<char>)
    ensures
        is_digit(c) <==> 48 <= c as int <= 57,
        is_digits(s) ==> s.len() >= 1 && forall|i: int|
            0 <= i < s.len() ==> 48 <= (#[trigger] s[i]) as int <= 57,
        s.len() >= 1 && (forall|i: int| 0 <= i < s.len() ==> 48 <= (#[trigger] s[i]) as int <= 57)
            ==> is_digits(s),
{
}

proof fn ascii_byte(c: char)
    requires
        (c as int) < 128,
    ensures
        c as u8 == c as int,
{
}

/// ASCII text has one byte for each character, which is the number of the character.
pub proof fn ascii_keeps_text(s: Seq<char>)
    ensures
        ascii(s).len() == s.len(),
        forall|i: int|
            0 <= i < s.len() && (s[i] as int) < 128 ==> (#[trigger] ascii(s)[i]) as int == s[i] as int,
{
    assert forall|i: int| 0 <= i < s.len() && (s[i] as int) < 128 implies (#[trigger] ascii(
        s,
    )[i]) as int == s[i] as int by {
        ascii_byte(s[i]);
    }
}

/// A longer run of digits does not stand for a smaller number.
proof fn decimal_value_of_prefix(s: Seq<char>, n: int)
    requires
        0 <= n <= s.len(),
    ensures
        decimal_value(s.take(n)) <= decimal_value(s),
    decreases s.len(),
{
    if n == s.len() {
        assert(s.take(n) =~= s);
    } else {
        decimal_value_of_prefix(s.drop_last(), n);
        assert(s.drop_last().take(n) =~= s.take(n));
    }
}

/// Reads a run of decimal digits as a number of at most `max`.
pub fn parse_decimal(s: &str, max: u32) -> (result: Option<u32>)
    requires
        is_digits(s@),
    ensures
        result == (if decimal_value(s@) <= max {
            Some(decimal_value(s@) as u32)
        } else {
            None
        }),
{
    let len: usize = s.unicode_len();
    let mut value: u32 = 0;
    let mut i: usize = 0;
    while i < len
        invariant
            i <= len,
            len == s@.len(),
            is_digits(s@),
            value == decimal_value(s@.take(i as int)),
            value <= max,
        decreases len - i,
    {
        let digit: u32 = s.get_char(i) as u32 - '0' as u32;
        let next: u64 = value as u64 * 10 + digit as u64;
        proof {
            assert(s@.take(i + 1).drop_last() =~= s@.take(i as int));
            assert(s@.take(i + 1).last() == s@[i as int]);
            decimal_value_of_prefix(s@, i + 1);
        }
        if next > max as u64 {
            return None;
        }
        value = next as u32;
        i += 1;
    }
    proof {
        assert(s@.take(len as int) =~= s@);
    }
    Some(value)
}

/// Appends the decimal notation of `n`.
pub fn push_decimal(out: &mut Vec<u8>, n: usize)
    ensures
        final(out)@ == old(out)@ + ascii(decimal(n as nat)),
    decreases n,
{
    if n >= 10 {
        push_decimal(out, n / 10);
    }
    let digit: u8 = (n % 10) as u8;
    out.push('0' as u8 + digit);
    proof {
        assert(out@ =~= old(out)@ + ascii(decimal(n as nat)));
    }
}

/// A name that [`CARD_PATTERN`] describes: `card`, then digits up to the end.
pub open spec fn is_card_name(name: Seq<char>) -> bool {
    name.len() > 4 && name.take(4) == seq!['c', 'a', 'r', 'd'] && is_digits(name.skip(4))
}

/// How many digits stand in `s` from `i` on without a break.
pub open spec fn digit_run(s: Seq<char>, i: int) -> nat
    decreases s.len() - i,
{
    if 0 <= i < s.len() && is_digit(s[i]) {
        digit_run(s, i + 1) + 1
    } else {
        0
    }
}

/// Where the digits that stand at `i` end.
pub open spec fn digits_end(s: Seq<char>, i: int) -> int {
    i + digit_run(s, i)
}

/// At `i` there are digits, and behind them a dot.
pub open spec fn digits_and_dot_at(s: Seq<char>, i: int) -> bool {
    digit_run(s, i) > 0 && digits_end(s, i) < s.len() && s[digits_end(s, i)] == '.'
}

/// At `i` there are three numbers with a dot between each two of them.
pub open spec fn version_at(s: Seq<char>, i: int) -> bool {
    let minor = digits_end(s, i) + 1;
    let patch = digits_end(s, minor) + 1;
    digits_and_dot_at(s, i) && digits_and_dot_at(s, minor) && digit_run(s, patch) > 0
}

/// Where the first version at or behind `i` begins.
pub open spec fn version_start(s: Seq<char>, i: int) -> Option<int>
    decreases s.len() - i,
{
    if i >= s.len() {
        None
    } else if version_at(s, i) {
        Some(i)
    } else {
        version_start(s, i + 1)
    }
}

/// Where the version at `i` ends.
pub open spec fn version_end(s: Seq<char>, i: int) -> int {
    digits_end(s, digits_end(s, digits_end(s, i) + 1) + 1)
}

/// The three numbers of the version at `i`, as text.
pub open spec fn version_groups(s: Seq<char>, i: int) -> Seq<Seq<char>> {
    let minor = digits_end(s, i) + 1;
    let patch = digits_end(s, minor) + 1;
    seq![
        s.subrange(i, digits_end(s, i)),
        s.subrange(minor, digits_end(s, minor)),
        s.subrange(patch, digits_end(s, patch)),
    ]
}

/// Where a version is found, there is one.
pub proof fn version_start_is_version(s: Seq<char>, i: int)
    requires
        0 <= i,
    ensures
        version_start(s, i) matches Some(j) ==> i <= j < s.len() && version_at(s, j),
        version_start(s, i) matches Some(j) ==> forall|k: int|
            i <= k < j ==> !#[trigger] version_at(s, k),
        version_start(s, i) is None ==> forall|k: int|
            i <= k < s.len() ==> !#[trigger] version_at(s, k),
    decreases s.len() - i,
{
    if i < s.len() && !version_at(s, i) {
        version_start_is_version(s, i + 1);
    }
}

/// A run of digits holds nothing but digits, and ends within the text.
proof fn digit_run_is_digits(s: Seq<char>, i: int)
    requires
        0 <= i <= s.len(),
    ensures
        digits_end(s, i) <= s.len(),
        forall|k: int| i <= k < digits_end(s, i) ==> is_digit(#[trigger] s[k]),
    decreases s.len() - i,
{
    if i < s.len() && is_digit(s[i]) {
        digit_run_is_digits(s, i + 1);
    }
}

/// Each of the three numbers of a version is a nonempty run of digits.
pub proof fn version_groups_are_digits(s: Seq<char>, i: int)
    requires
        0 <= i < s.len(),
        version_at(s, i),
    ensures
        version_groups(s, i).len() == 3,
        is_digits(version_groups(s, i)[0]),
        is_digits(version_groups(s, i)[1]),
        is_digits(version_groups(s, i)[2]),
{
    let minor = digits_end(s, i) + 1;
    let patch = digits_end(s, minor) + 1;
    digit_run_is_digits(s, i);
    digit_run_is_digits(s, minor);
    digit_run_is_digits(s, patch);
}

/// Digits that are followed by none are a whole run of digits.
proof fn digit_run_is_whole(s: Seq<char>, i: int, digits: Seq<char>)
    requires
        0 <= i,
        i + digits.len() <= s.len(),
        s.subrange(i, i + digits.len()) == digits,
        forall|k: int| 0 <= k < digits.len() ==> is_digit(#[trigger] digits[k]),
        i + digits.len() < s.len() ==> !is_digit(s[i + digits.len()]),
    ensures
        digit_run(s, i) == digits.len(),
    decreases digits.len(),
{
    if digits.len() > 0 {
        let rest = digits.drop_first();
        assert(s.subrange(i, i + digits.len())[0] == s[i]);
        assert(is_digit(digits[0]));
        assert(rest =~= s.subrange(i + 1, i + 1 + rest.len()));
        assert forall|k: int| 0 <= k < rest.len() implies is_digit(#[trigger] rest[k]) by {
            assert(rest[k] == digits[k + 1]);
        }
        digit_run_is_whole(s, i + 1, rest);
    }
}

/// Three numbers with dots between them, at the beginning of a text and with no digit behind them,
/// are found as the version in it.
pub proof fn version_is_found(
    major: Seq<char>,
    minor: Seq<char>,
    patch: Seq<char>,
    rest: Seq<char>,
)
    requires
        is_digits(major),
        is_digits(minor),
        is_digits(patch),
        rest.len() > 0 ==> !is_digit(rest[0]),
    ensures
        ({
            let s = major + seq!['.'] + minor + seq!['.'] + patch + rest;
            version_start(s, 0) == Some(0int) && version_groups(s, 0) == seq![major, minor, patch]
        }),
{
    let s = major + seq!['.'] + minor + seq!['.'] + patch + rest;
    let at_minor = major.len() + 1;
    let at_patch = at_minor + minor.len() + 1;
    assert(s.subrange(0, major.len() as int) =~= major);
    assert(s[major.len() as int] == '.');
    assert(s.subrange(at_minor as int, (at_minor + minor.len()) as int) =~= minor);
    assert(s[(at_minor + minor.len()) as int] == '.');
    assert(s.subrange(at_patch as int, (at_patch + patch.len()) as int) =~= patch);
    if rest.len() > 0 {
        assert(s[(at_patch + patch.len()) as int] == rest[0]);
    }
    digit_run_is_whole(s, 0, major);
    digit_run_is_whole(s, at_minor as int, minor);
    digit_run_is_whole(s, at_patch as int, patch);
    assert(version_groups(s, 0) =~= seq![major, minor, patch]);
}

/// Where versions are looked for from a place on and there is none before another place, the one
/// there is found.
proof fn version_start_skips(s: Seq<char>, i: int, j: int)
    requires
        0 <= i <= j < s.len(),
        forall|k: int| i <= k < j ==> !#[trigger] version_at(s, k),
        version_at(s, j),
    ensures
        version_start(s, i) == Some(j),
    decreases j - i,
{
    if i < j {
        version_start_skips(s, i + 1, j);
    }
}

/// Three numbers with dots between them are found wherever they stand, unless a version begins
/// before them.
pub proof fn first_version_is_found(
    before: Seq<char>,
    major: Seq<char>,
    minor: Seq<char>,
    patch: Seq<char>,
    rest: Seq<char>,
)
    requires
        is_digits(major),
        is_digits(minor),
        is_digits(patch),
    ensures
        version_start(before + major + seq!['.'] + minor + seq!['.'] + patch + rest, 0) matches Some(
            i,
        ) && i <= before.len(),
{
    let s = before + major + seq!['.'] + minor + seq!['.'] + patch + rest;
    let at = before.len() as int;
    let at_minor = at + major.len() + 1;
    let at_patch = at_minor + minor.len() + 1;
    assert(s.subrange(at, at + major.len()) =~= major);
    assert(s[at + major.len()] == '.');
    assert(s.subrange(at_minor, at_minor + minor.len()) =~= minor);
    assert(s[at_minor + minor.len()] == '.');
    assert(s[at_patch] == patch[0]);
    digit_run_is_whole(s, at, major);
    digit_run_is_whole(s, at_minor, minor);
    assert(digit_run(s, at_patch) > 0);
    assert(version_at(s, at));
    version_start_is_version(s, 0);
}

/// Three numbers with dots between them, behind text without digits and with no digit behind them,
/// are found as the version in it.
pub proof fn version_is_found_behind(
    before: Seq<char>,
    major: Seq<char>,
    minor: Seq<char>,
    patch: Seq<char>,
    rest: Seq<char>,
)
    requires
        forall|k: int| 0 <= k < before.len() ==> !is_digit(#[trigger] before[k]),
        is_digits(major),
        is_digits(minor),
        is_digits(patch),
        rest.len() > 0 ==> !is_digit(rest[0]),
    ensures
        ({
            let s = before + major + seq!['.'] + minor + seq!['.'] + patch + rest;
            version_start(s, 0) == Some(before.len() as int) && version_groups(
                s,
                before.len() as int,
            ) == seq![major, minor, patch]
        }),
{
    let s = before + major + seq!['.'] + minor + seq!['.'] + patch + rest;
    let at = before.len() as int;
    let at_minor = at + major.len() + 1;
    let at_patch = at_minor + minor.len() + 1;
    assert(s.subrange(at, at + major.len()) =~= major);
    assert(s[at + major.len()] == '.');
    assert(s.subrange(at_minor, at_minor + minor.len()) =~= minor);
    assert(s[at_minor + minor.len()] == '.');
    assert(s.subrange(at_patch, at_patch + patch.len()) =~= patch);
    if rest.len() > 0 {
        assert(s[at_patch + patch.len()] == rest[0]);
    }
    digit_run_is_whole(s, at, major);
    digit_run_is_whole(s, at_minor, minor);
    digit_run_is_whole(s, at_patch, patch);
    assert forall|k: int| 0 <= k < at implies !#[trigger] version_at(s, k) by {
        assert(s[k] == before[k]);
    }
    version_start_skips(s, 0, at);
    assert(version_groups(s, at) =~= seq![major, minor, patch]);
}

/// The digits of a run are followed by none.
proof fn digit_run_ends(s: Seq<char>, i: int)
    requires
        0 <= i <= s.len(),
    ensures
        digits_end(s, i) < s.len() ==> !is_digit(s[digits_end(s, i)]),
    decreases s.len() - i,
{
    if i < s.len() && is_digit(s[i]) {
        digit_run_ends(s, i + 1);
    }
}

/// A text with a version in it is something before it, the three numbers with dots between them,
/// and something behind it that does not begin with a digit.
pub proof fn version_parts_make_text(s: Seq<char>, i: int)
    requires
        0 <= i < s.len(),
        version_at(s, i),
    ensures
        ({
            let groups = version_groups(s, i);
            let rest = s.skip(version_end(s, i));
            &&& i <= version_end(s, i) <= s.len()
            &&& s == s.take(i) + groups[0] + seq!['.'] + groups[1] + seq!['.'] + groups[2] + rest
            &&& rest.len() > 0 ==> !is_digit(rest[0])
        }),
{
    let groups = version_groups(s, i);
    let minor = digits_end(s, i) + 1;
    let patch = digits_end(s, minor) + 1;
    digit_run_is_digits(s, i);
    digit_run_is_digits(s, minor);
    digit_run_is_digits(s, patch);
    digit_run_ends(s, patch);
    let rest = s.skip(version_end(s, i));
    assert(s =~= s.take(i) + groups[0] + seq!['.'] + groups[1] + seq!['.'] + groups[2] + rest);
}

/// What the groups of one of the two patterns hold after a search in `text`, with the match as a
/// whole before them, or `None` where the pattern does not match.
pub open spec fn pattern_groups(pattern: Seq<char>, text: Seq<char>) -> Option<Seq<Seq<char>>> {
    if pattern == CARD_PATTERN@ {
        if is_card_name(text) {
            Some(seq![text, text.skip(4)])
        } else {
            None
        }
    } else {
        match version_start(text, 0) {
            Some(i) => Some(
                seq![text.subrange(i, version_end(text, i))] + version_groups(text, i),
            ),
            None => None,
        }
    }
}

/// Calls `regex::Regex::new` and `regex::Regex::captures`, and hands out the match as a whole and
/// what its groups hold, in the order of the groups.
///
/// The contract claims, of the two patterns only, what the documentation of `regex` says of
/// their syntax and of a search: `^` and `$` stand for the beginning and the end of the text,
/// `[0-9]` for an ASCII digit, `+` repeats as often as it can, and of all matches the one that
/// begins first is found.
#[verifier::external_body]
pub(crate) fn captures(pattern: &str, text: &str) -> (groups: Option<Vec<String>>)
    requires
        pattern@ == CARD_PATTERN@ || pattern@ == VERSION_PATTERN@,
    ensures
        match groups {
            Some(g) => pattern_groups(pattern@, text@) == Some(
                g@.map_values(|group: String| group@),
            ),
            None => pattern_groups(pattern@, text@) is None,
        },
{
    let found = regex::Regex::new(pattern).unwrap();
    found.captures(text).map(
        |caps| caps.iter().map(|group| group.unwrap().as_str().to_string()).collect(),
    )
}

} // verus!
