//! Finding out the identifier under which the daemon knows a connection.
//!
//! A connection asks the daemon for its own entry in the history of clients.
//! The reply is a sequence of lines that end in a carriage return and a line
//! feed. The first line holds fields that hyphens part, and its second field
//! is the identifier in decimal digits.

use vstd::prelude::*;

verus! {

/// The carriage return that begins a line break.
pub const CARRIAGE_RETURN: u8 = 13;

/// The line feed that ends a line break.
pub const LINE_FEED: u8 = 10;

/// The hyphen that parts the fields of a line.
pub const HYPHEN: u8 = 45;

/// The plus sign that may precede a number.
pub const PLUS: u8 = 43;

/// The identifier of a connection whose reply could not be read. The daemon
/// reports the events of such a connection under the identifier that it gave
/// itself, so they do not reach the handlers of the connection.
pub const NO_CLIENT_ID: u64 = 0;

/// Whether a line break starts at index `i` of `s`.
pub open spec fn is_line_break(s: Seq<u8>, i: int) -> bool {
    0 <= i && i + 1 < s.len() && s[i] == CARRIAGE_RETURN && s[i + 1] == LINE_FEED
}

/// Whether the first line of `s` is `n` bytes long: a line break starts at
/// `n` or `s` ends there, and no line break starts before.
pub open spec fn is_first_line_len(s: Seq<u8>, n: int) -> bool {
    &&& 0 <= n <= s.len()
    &&& n < s.len() ==> is_line_break(s, n)
    &&& forall|j: int| 0 <= j < n ==> !is_line_break(s, j)
}

/// The first line of `s`, without its line break.
pub open spec fn first_line(s: Seq<u8>) -> Seq<u8> {
    s.take(choose|n: int| is_first_line_len(s, n))
}

/// Whether `n` is the index of the first hyphen in `s`, or the length of `s`
/// where it holds none.
pub open spec fn is_first_hyphen(s: Seq<u8>, n: int) -> bool {
    &&& 0 <= n <= s.len()
    &&& n < s.len() ==> s[n] == HYPHEN
    &&& forall|j: int| 0 <= j < n ==> s[j] != HYPHEN
}

/// The index of the first hyphen in `s`, or the length of `s` where it holds
/// none.
pub open spec fn first_hyphen(s: Seq<u8>) -> int {
    choose|n: int| is_first_hyphen(s, n)
}

/// The second of the fields that hyphens part `line` into: what stands
/// between the first hyphen and the next one, or the end. A line without a
/// hyphen has one field only.
pub open spec fn second_field(line: Seq<u8>) -> Option<Seq<u8>> {
    let first = first_hyphen(line);
    if first < line.len() {
        let rest = line.skip(first + 1);
        Some(rest.take(first_hyphen(rest)))
    } else {
        None
    }
}

/// Whether `b` is a decimal digit.
pub open spec fn is_digit(b: u8) -> bool {
    48 <= b <= 57
}

/// Whether `s` holds decimal digits only.
pub open spec fn all_digits(s: Seq<u8>) -> bool {
    forall|i: int| 0 <= i < s.len() ==> is_digit(#[trigger] s[i])
}

/// The number that a sequence of decimal digits writes.
pub open spec fn decimal(digits: Seq<u8>) -> nat
    decreases digits.len(),
{
    if digits.len() == 0 {
        0
    } else {
        decimal(digits.drop_last()) * 10 + (digits.last() - 48) as nat
    }
}

/// `field` without the plus sign that it may begin with.
pub open spec fn without_sign(field: Seq<u8>) -> Seq<u8> {
    if field.len() > 0 && field[0] == PLUS {
        field.skip(1)
    } else {
        field
    }
}

/// The number that `field` writes: one or more decimal digits, which a plus
/// sign may precede, whose value fits in 64 bits. Anything else writes no
/// number.
pub open spec fn parse_u64(field: Seq<u8>) -> Option<u64> {
    let digits = without_sign(field);
    if digits.len() > 0 && all_digits(digits) && decimal(digits) <= u64::MAX {
        Some(decimal(digits) as u64)
    } else {
        None
    }
}

/// The client identifier that a reply gives: the number in the second field
/// of its first line, and [`NO_CLIENT_ID`] where there is no such field or it
/// writes no number.
pub open spec fn client_id_of(reply: Seq<u8>) -> u64 {
    match second_field(first_line(reply)) {
        Some(field) => match parse_u64(field) {
            Some(id) => id,
            None => NO_CLIENT_ID,
        },
        None => NO_CLIENT_ID,
    }
}

/// Every sequence has a first line: scanning from `from`, before which no
/// line break starts, comes to a line break or to the end.
pub proof fn lemma_first_line_exists(s: Seq<u8>, from: int)
    requires
        0 <= from <= s.len(),
        forall|j: int| 0 <= j < from ==> !is_line_break(s, j),
    ensures
        is_first_line_len(s, first_line(s).len() as int),
        first_line(s) == s.take(first_line(s).len() as int),
    decreases s.len() - from,
{
    if from == s.len() || is_line_break(s, from) {
        assert(is_first_line_len(s, from));
    } else {
        lemma_first_line_exists(s, from + 1);
    }
}

/// Every sequence has a first hyphen or none: scanning from `from`, before
/// which no hyphen stands, comes to a hyphen or to the end.
pub proof fn lemma_first_hyphen_exists(s: Seq<u8>, from: int)
    requires
        0 <= from <= s.len(),
        forall|j: int| 0 <= j < from ==> s[j] != HYPHEN,
    ensures
        is_first_hyphen(s, first_hyphen(s)),
    decreases s.len() - from,
{
    if from == s.len() || s[from] == HYPHEN {
        assert(is_first_hyphen(s, from));
    } else {
        lemma_first_hyphen_exists(s, from + 1);
    }
}

/// No sequence has first lines of two lengths.
pub proof fn lemma_first_line(s: Seq<u8>, n: int)
    requires
        is_first_line_len(s, n),
    ensures
        first_line(s) == s.take(n),
{
}

/// No sequence has its first hyphen at two places.
pub proof fn lemma_first_hyphen(s: Seq<u8>, n: int)
    requires
        is_first_hyphen(s, n),
    ensures
        first_hyphen(s) == n,
{
}

/// Digits that are appended never make the number smaller.
pub proof fn lemma_decimal_grows(digits: Seq<u8>, k: int)
    requires
        all_digits(digits),
        0 <= k <= digits.len(),
    ensures
        decimal(digits.take(k)) <= decimal(digits),
    decreases digits.len() - k,
{
    if k < digits.len() {
        let longer = digits.take(k + 1);
        assert(longer.drop_last() =~= digits.take(k));
        lemma_decimal_grows(digits, k + 1);
    } else {
        assert(digits.take(k) =~= digits);
    }
}

/// The decimal digits that write `n`, without leading zeros.
pub open spec fn digits_of(n: nat) -> Seq<u8>
    decreases n,
{
    if n < 10 {
        seq![(48 + n) as u8]
    } else {
        digits_of(n / 10).push((48 + n % 10) as u8)
    }
}

/// The digits of a number write that number.
pub proof fn lemma_digits_of(n: nat)
    ensures
        digits_of(n).len() > 0,
        all_digits(digits_of(n)),
        decimal(digits_of(n)) == n,
    decreases n,
{
    let digits = digits_of(n);
    if n < 10 {
        assert(decimal(digits.drop_last()) == 0);
    } else {
        let front = digits_of(n / 10);
        lemma_digits_of(n / 10);
        assert(digits.drop_last() =~= front);
    }
}

/// A reply whose first line holds no hyphen gives no client identifier.
pub proof fn lemma_reply_without_hyphen(reply: Seq<u8>)
    requires
        !first_line(reply).contains(HYPHEN),
    ensures
        client_id_of(reply) == NO_CLIENT_ID,
{
    let line = first_line(reply);
    lemma_first_hyphen(line, line.len() as int);
}

/// A reply gives the identifier that its first line writes: where the line
/// is a name without a hyphen, a hyphen and the digits of `id`, and a line
/// break and anything else follow it, the client identifier is `id`.
pub proof fn lemma_reply_gives_identifier(name: Seq<u8>, id: u64, rest: Seq<u8>)
    requires
        !name.contains(HYPHEN),
        forall|i: int| !is_line_break(name, i),
    ensures
        client_id_of(
            name + seq![HYPHEN] + digits_of(id as nat) + seq![CARRIAGE_RETURN, LINE_FEED] + rest,
        ) == id,
{
    let digits = digits_of(id as nat);
    let line = name + seq![HYPHEN] + digits;
    let reply = line + seq![CARRIAGE_RETURN, LINE_FEED] + rest;
    let n = line.len() as int;
    lemma_digits_of(id as nat);
    assert forall|j: int| 0 <= j < n implies !is_line_break(reply, j) by {
        if is_line_break(reply, j) && j + 1 < name.len() {
            assert(is_line_break(name, j));
        }
    }
    lemma_first_line(reply, n);
    assert(reply.take(n) =~= line);
    lemma_first_hyphen(line, name.len() as int);
    assert(line.skip(name.len() as int + 1) =~= digits);
    lemma_first_hyphen(digits, digits.len() as int);
    assert(digits.take(digits.len() as int) =~= digits);
}

/// The length of the first line of `s`.
fn first_line_len(s: &[u8]) -> (n: usize)
    ensures
        is_first_line_len(s@, n as int),
{
    let mut i: usize = 0;
    while i < s.len()
        invariant
            i <= s.len(),
            forall|j: int| 0 <= j < i ==> !is_line_break(s@, j),
        decreases s.len() - i,
    {
        if s[i] == CARRIAGE_RETURN && i + 1 < s.len() && s[i + 1] == LINE_FEED {
            return i;
        }
        i += 1;
    }
    i
}

/// The index of the first hyphen in `s` from `from` up to `to`, or `to`
/// where none stands there.
fn find_hyphen(s: &[u8], from: usize, to: usize) -> (at: usize)
    requires
        from <= to <= s.len(),
    ensures
        from <= at <= to,
        is_first_hyphen(s@.subrange(from as int, to as int), at - from),
{
    let ghost part = s@.subrange(from as int, to as int);
    let mut i: usize = from;
    while i < to
        invariant
            from <= i <= to <= s.len(),
            part == s@.subrange(from as int, to as int),
            forall|j: int| 0 <= j < i - from ==> part[j] != HYPHEN,
        decreases to - i,
    {
        if s[i] == HYPHEN {
            return i;
        }
        i += 1;
    }
    i
}

/// Reads the bytes of `s` from `from` up to `to` as a number.
fn parse_decimal(s: &[u8], from: usize, to: usize) -> (number: Option<u64>)
    requires
        from <= to <= s.len(),
    ensures
        number == parse_u64(s@.subrange(from as int, to as int)),
{
    let ghost field = s@.subrange(from as int, to as int);
    let mut i: usize = from;
    if i < to && s[i] == PLUS {
        i += 1;
    }
    let start: usize = i;
    let ghost digits = s@.subrange(start as int, to as int);
    if i == to {
        return None;
    }
    let mut value: u64 = 0;
    while i < to
        invariant
            start <= i <= to <= s.len(),
            digits == s@.subrange(start as int, to as int),
            digits == without_sign(s@.subrange(from as int, to as int)),
            digits.len() > 0,
            all_digits(digits.take(i - start)),
            value == decimal(digits.take(i - start)),
        decreases to - i,
    {
        let b: u8 = s[i];
        let ghost seen = digits.take(i - start);
        let ghost next = digits.take(i - start + 1);
        if b < 48 || b > 57 {
            assert(!is_digit(digits[i - start]));
            return None;
        }
        let d: u64 = (b - 48) as u64;
        assert(next.drop_last() =~= seen);
        assert(all_digits(next));
        let shifted: u64 = match value.checked_mul(10) {
            Some(v) => v,
            None => {
                proof {
                    if all_digits(digits) {
                        lemma_decimal_grows(digits, i - start + 1);
                    }
                }
                return None;
            },
        };
        value = match shifted.checked_add(d) {
            Some(v) => v,
            None => {
                proof {
                    if all_digits(digits) {
                        lemma_decimal_grows(digits, i - start + 1);
                    }
                }
                return None;
            },
        };
        i += 1;
    }
    assert(digits.take(i - start) =~= digits);
    Some(value)
}

/// Reads the client identifier out of the daemon's reply to the request for
/// the connection's own entry in the history.
///
/// A reply that does not have the expected form is no error: the identifier
/// is then [`NO_CLIENT_ID`].
pub fn parse_client_id(reply: &[u8]) -> (id: u64)
    ensures
        id == client_id_of(reply@),
{
    let n: usize = first_line_len(reply);
    let ghost line = reply@.take(n as int);
    proof {
        lemma_first_line(reply@, n as int);
    }
    let first: usize = find_hyphen(reply, 0, n);
    proof {
        lemma_first_hyphen(line, first as int);
    }
    if first == n {
        return NO_CLIENT_ID;
    }
    let end: usize = find_hyphen(reply, first + 1, n);
    proof {
        let rest = line.skip(first + 1);
        assert(rest =~= reply@.subrange(first + 1, n as int));
        lemma_first_hyphen(rest, end - (first + 1));
        assert(rest.take(end - (first + 1)) =~= reply@.subrange(first + 1, end as int));
    }
    match parse_decimal(reply, first + 1, end) {
        Some(id) => id,
        None => NO_CLIENT_ID,
    }
}

} // verus!
