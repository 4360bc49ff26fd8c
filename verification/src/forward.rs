//! The forwarding specification given on the command line, `LOCAL:REMOTE`,
//! and the decimal text of port numbers.

use vstd::prelude::*;

verus! {

broadcast use vstd::string::group_string_axioms;

/// A decimal digit character.
pub open spec fn is_digit(c: char) -> bool {
    48 <= c as u32 <= 57
}

/// The value of a decimal digit character.
pub open spec fn digit_value(c: char) -> nat {
    (c as u32 - 48) as nat
}

/// The value of a sequence of decimal digits, most significant first.
pub open spec fn decimal_value(digits: Seq<char>) -> nat
    decreases digits.len(),
{
    if digits.len() == 0 {
        0
    } else {
        decimal_value(digits.drop_last()) * 10 + digit_value(digits.last())
    }
}

/// Whether every character of `text` is a decimal digit.
pub open spec fn all_digits(text: Seq<char>) -> bool {
    forall|i: int| 0 <= i < text.len() ==> is_digit(#[trigger] text[i])
}

/// What `str::parse::<u16>` gives for `text`: one optional leading `+`
/// (not alone), then at least one decimal digit and nothing else, with a
/// value that fits in 16 bits; `None` otherwise.
pub open spec fn parse_u16_text(text: Seq<char>) -> Option<u16> {
    let digits = if text.len() >= 2 && text[0] == '+' {
        text.drop_first()
    } else {
        text
    };
    if digits.len() > 0 && all_digits(digits) && decimal_value(digits) <= 65535 {
        Some(decimal_value(digits) as u16)
    } else {
        None
    }
}

/// The digit character for `d` (0 <= d < 10).
pub open spec fn digit_char(d: nat) -> char {
    (48 + d) as char
}

/// The decimal text of `n`, without leading zeros.
pub open spec fn decimal_text(n: nat) -> Seq<char>
    decreases n,
{
    if n < 10 {
        seq![digit_char(n)]
    } else {
        decimal_text(n / 10).push(digit_char(n % 10))
    }
}

/// The end of the `:`-separated field that starts at `from`: the index of
/// the next `:` at or after `from`, or the length of the text.
pub open spec fn field_end(text: Seq<char>, from: int) -> int
    decreases text.len() - from,
{
    if from >= text.len() || text[from] == ':' {
        from
    } else {
        field_end(text, from + 1)
    }
}

/// The text before the first `:` (the whole text if there is none).
pub open spec fn local_field(text: Seq<char>) -> Seq<char> {
    text.subrange(0, field_end(text, 0))
}

/// Whether the text has a second field, that is, a `:`.
pub open spec fn has_remote_field(text: Seq<char>) -> bool {
    field_end(text, 0) < text.len()
}

/// The text between the first `:` and the next one (or the end).
pub open spec fn remote_field(text: Seq<char>) -> Seq<char> {
    let start = field_end(text, 0) + 1;
    text.subrange(start, field_end(text, start))
}

/// Why a forwarding specification was refused.
#[derive(Debug, Clone, PartialEq, Eq)]
pub enum ForwardError {
    /// There is no `:`, so no remote port.
    MissingRemote,
    /// The local field (held here) is not a port number.
    InvalidLocal(String),
    /// The remote field (held here) is not a port number.
    InvalidRemote(String),
}

impl ForwardError {
    /// The text of the error.
    pub open spec fn text(self) -> Seq<char> {
        match self {
            ForwardError::MissingRemote => "remote port is required"@,
            ForwardError::InvalidLocal(field) => "invalid local port: "@ + field@,
            ForwardError::InvalidRemote(field) => "invalid remote port: "@ + field@,
        }
    }

    /// The text of the error, as shown to the user.
    pub fn message(&self) -> (text: String)
        ensures
            text@ == self.text(),
    {
        match self {
            ForwardError::MissingRemote => String::from_str("remote port is required"),
            ForwardError::InvalidLocal(field) => String::from_str("invalid local port: ").concat(field.as_str()),
            ForwardError::InvalidRemote(field) => String::from_str("invalid remote port: ").concat(field.as_str()),
        }
    }
}

proof fn lemma_field_end_bounds(text: Seq<char>, from: int)
    requires
        0 <= from <= text.len(),
    ensures
        from <= field_end(text, from) <= text.len(),
        field_end(text, from) < text.len() ==> text[field_end(text, from)] == ':',
        forall|i: int| from <= i < field_end(text, from) ==> text[i] != ':',
    decreases text.len() - from,
{
    if from < text.len() && text[from] != ':' {
        lemma_field_end_bounds(text, from + 1);
    }
}

/// The characters of `text`, in order.
fn chars_of(text: &str) -> (chars: Vec<char>)
    ensures
        chars@ == text@,
{
    let mut chars: Vec<char> = Vec::new();
    for c in it: text.chars()
        invariant
            chars@ == it.seq().take(it.index() as int),
    {
        chars.push(c);
    }
    chars
}

/// The end of the field of `chars` that starts at `from`.
fn find_field_end(chars: &Vec<char>, from: usize) -> (end: usize)
    requires
        from <= chars@.len(),
    ensures
        end == field_end(chars@, from as int),
{
    let mut i = from;
    while i < chars.len() && chars[i] != ':'
        invariant
            from <= i <= chars@.len(),
            field_end(chars@, i as int) == field_end(chars@, from as int),
        decreases chars@.len() - i,
    {
        i = i + 1;
    }
    i
}

proof fn lemma_decimal_value_push(digits: Seq<char>, c: char)
    ensures
        decimal_value(digits.push(c)) == decimal_value(digits) * 10 + digit_value(c),
{
    assert(digits.push(c).drop_last() =~= digits);
}

/// The port number that `text` stands for, as `str::parse::<u16>` reads it.
pub fn parse_port(text: &str) -> (port: Option<u16>)
    ensures
        port == parse_u16_text(text@),
{
    let chars = chars_of(text);
    let n = chars.len();
    let start: usize = if n >= 2 && chars[0] == '+' { 1 } else { 0 };
    let ghost digits = if chars@.len() >= 2 && chars@[0] == '+' { chars@.drop_first() } else { chars@ };
    assert(digits =~= chars@.subrange(start as int, n as int));
    if start == n {
        return None;
    }
    // `value` saturates at 65536, so it never overflows and stays exact below it.
    let mut value: u32 = 0;
    let mut i = start;
    while i < n
        invariant
            start <= i <= n,
            n == chars@.len(),
            chars@ == text@,
            digits == (if text@.len() >= 2 && text@[0] == '+' { text@.drop_first() } else { text@ }),
            digits == chars@.subrange(start as int, n as int),
            all_digits(chars@.subrange(start as int, i as int)),
            value as nat == if decimal_value(chars@.subrange(start as int, i as int)) <= 65536 {
                decimal_value(chars@.subrange(start as int, i as int))
            } else {
                65536
            },
        decreases n - i,
    {
        let c = chars[i];
        let code = c as u32;
        if !(48 <= code && code <= 57) {
            assert(digits[i - start] == c);
            assert(!is_digit(digits[i - start]));
            return None;
        }
        let d: u32 = code - 48;
        proof {
            assert(chars@.subrange(start as int, i + 1) =~= chars@.subrange(start as int, i as int).push(c));
            lemma_decimal_value_push(chars@.subrange(start as int, i as int), c);
        }
        let next = value * 10 + d;
        value = if next > 65536 { 65536 } else { next };
        i = i + 1;
    }
    assert(chars@.subrange(start as int, n as int) == digits);
    if value <= 65535 {
        Some(value as u16)
    } else {
        None
    }
}

/// Reads a forwarding specification `LOCAL:REMOTE` into the two port
/// numbers. Only the first two `:`-separated fields are read: anything after
/// a second `:` is ignored.
pub fn validate_forward(forward: &str) -> (ports: Result<(u16, u16), ForwardError>)
    ensures
        match ports {
            Ok((local, remote)) => {
                &&& has_remote_field(forward@)
                &&& parse_u16_text(local_field(forward@)) == Some(local)
                &&& parse_u16_text(remote_field(forward@)) == Some(remote)
            },
            Err(ForwardError::MissingRemote) => !has_remote_field(forward@),
            Err(ForwardError::InvalidLocal(field)) => {
                &&& has_remote_field(forward@)
                &&& parse_u16_text(local_field(forward@)) is None
                &&& field@ == local_field(forward@)
            },
            Err(ForwardError::InvalidRemote(field)) => {
                &&& has_remote_field(forward@)
                &&& parse_u16_text(local_field(forward@)) is Some
                &&& parse_u16_text(remote_field(forward@)) is None
                &&& field@ == remote_field(forward@)
            },
        },
{
    let chars = chars_of(forward);
    let local_end = find_field_end(&chars, 0);
    proof {
        lemma_field_end_bounds(chars@, 0);
    }
    if local_end == chars.len() {
        return Err(ForwardError::MissingRemote);
    }
    let remote_end = find_field_end(&chars, local_end + 1);
    proof {
        lemma_field_end_bounds(chars@, local_end + 1);
    }
    let local_text = forward.substring_char(0, local_end);
    let remote_text = forward.substring_char(local_end + 1, remote_end);
    let local = match parse_port(local_text) {
        Some(port) => port,
        None => return Err(ForwardError::InvalidLocal(local_text.to_string())),
    };
    let remote = match parse_port(remote_text) {
        Some(port) => port,
        None => return Err(ForwardError::InvalidRemote(remote_text.to_string())),
    };
    Ok((local, remote))
}

/// `10` to the power `n`.
pub open spec fn pow10(n: nat) -> nat
    decreases n,
{
    if n == 0 {
        1
    } else {
        10 * pow10((n - 1) as nat)
    }
}

/// The decimal text of a number has no leading zero, unless it is `0`.
pub proof fn lemma_decimal_text_no_leading_zero(n: nat)
    ensures
        decimal_text(n)[0] != '0' || n == 0,
        n == 0 ==> decimal_text(n) == seq!['0'],
    decreases n,
{
    if n >= 10 {
        lemma_decimal_text_no_leading_zero(n / 10);
        lemma_decimal_text(n / 10);
        assert(decimal_text(n)[0] == decimal_text(n / 10)[0]);
    } else {
        assert(digit_char(n) as u32 == 48 + n);
    }
}

/// A port is read only from text that is a digit string, possibly behind one
/// `+`, and the port is the value of the whole digit string.
pub proof fn lemma_parsed_port_is_whole_value(text: Seq<char>, port: u16)
    requires
        parse_u16_text(text) == Some(port),
    ensures
        exists|digits: Seq<char>|
            (text == digits || text == seq!['+'] + digits) && digits.len() > 0 && all_digits(digits) && decimal_value(digits)
                == port,
{
    let digits = if text.len() >= 2 && text[0] == '+' {
        text.drop_first()
    } else {
        text
    };
    if text.len() >= 2 && text[0] == '+' {
        assert(text =~= seq!['+'] + digits);
    }
}

/// Every non-empty digit string with a value that fits in 16 bits is read as
/// that value, with or without one leading `+`.
pub proof fn lemma_digit_strings_in_range(digits: Seq<char>)
    requires
        digits.len() > 0,
        all_digits(digits),
        decimal_value(digits) <= 65535,
    ensures
        parse_u16_text(digits) == Some(decimal_value(digits) as u16),
        parse_u16_text(seq!['+'] + digits) == Some(decimal_value(digits) as u16),
{
    assert(is_digit(digits[0]));
    assert((seq!['+'] + digits).drop_first() =~= digits);
}

/// Every digit string with a value above 65535 is refused, with or without
/// one leading `+`.
pub proof fn lemma_digit_strings_too_large(digits: Seq<char>)
    requires
        all_digits(digits),
        decimal_value(digits) > 65535,
    ensures
        parse_u16_text(digits) is None,
        parse_u16_text(seq!['+'] + digits) is None,
{
    if digits.len() > 0 {
        assert(is_digit(digits[0]));
    }
    assert((seq!['+'] + digits).drop_first() =~= digits);
}

proof fn lemma_decimal_value_lower_bound(digits: Seq<char>)
    requires
        digits.len() > 0,
        all_digits(digits),
        digit_value(digits[0]) > 0,
    ensures
        decimal_value(digits) >= pow10((digits.len() - 1) as nat),
    decreases digits.len(),
{
    if digits.len() == 1 {
        assert(digits.drop_last() =~= Seq::<char>::empty());
        assert(digits.last() == digits[0]);
    } else {
        let front = digits.drop_last();
        assert(front[0] == digits[0]);
        assert(pow10((digits.len() - 1) as nat) == 10 * pow10((front.len() - 1) as nat));
        assert(all_digits(front)) by {
            assert forall|i: int| 0 <= i < front.len() implies is_digit(#[trigger] front[i]) by {
                assert(front[i] == digits[i]);
            }
        }
        lemma_decimal_value_lower_bound(front);
    }
}

/// A digit string of six digits or more without a leading zero is too large
/// for a port and is refused.
pub proof fn lemma_six_digits_refused(digits: Seq<char>)
    requires
        digits.len() >= 6,
        all_digits(digits),
        digit_value(digits[0]) > 0,
    ensures
        parse_u16_text(digits) is None,
{
    lemma_decimal_value_lower_bound(digits);
    let n = (digits.len() - 1) as nat;
    reveal_with_fuel(pow10, 6);
    assert(pow10(5) == 100000);
    lemma_pow10_monotone(5, n);
    lemma_digit_strings_too_large(digits);
}

proof fn lemma_pow10_monotone(m: nat, n: nat)
    requires
        m <= n,
    ensures
        pow10(m) <= pow10(n),
    decreases n,
{
    if m < n {
        lemma_pow10_monotone(m, (n - 1) as nat);
    }
}

/// How the specification splits into fields: the local field is the text up
/// to the first `:` (the whole text when there is none); the remote field
/// follows that `:` and runs to the next `:` or the end; neither holds a `:`.
pub proof fn lemma_field_split(text: Seq<char>)
    ensures
        local_field(text) == text.subrange(0, local_field(text).len() as int),
        forall|i: int| 0 <= i < local_field(text).len() ==> #[trigger] local_field(text)[i] != ':',
        !has_remote_field(text) ==> local_field(text) == text,
        has_remote_field(text) ==> {
            let start = local_field(text).len() as int + 1;
            let end = start + remote_field(text).len();
            &&& text[start - 1] == ':'
            &&& end <= text.len()
            &&& remote_field(text) == text.subrange(start, end)
            &&& forall|i: int| 0 <= i < remote_field(text).len() ==> #[trigger] remote_field(text)[i] != ':'
            &&& (end == text.len() || text[end] == ':')
        },
{
    lemma_field_end_bounds(text, 0);
    if has_remote_field(text) {
        lemma_field_end_bounds(text, field_end(text, 0) + 1);
    } else {
        assert(local_field(text) =~= text);
    }
}

/// The decimal text of a single decimal digit.
fn digit_str(d: u16) -> (text: &'static str)
    requires
        d < 10,
    ensures
        text@ == seq![digit_char(d as nat)],
{
    proof {
        reveal_strlit("0");
        reveal_strlit("1");
        reveal_strlit("2");
        reveal_strlit("3");
        reveal_strlit("4");
        reveal_strlit("5");
        reveal_strlit("6");
        reveal_strlit("7");
        reveal_strlit("8");
        reveal_strlit("9");
    }
    let text = match d {
        0 => "0",
        1 => "1",
        2 => "2",
        3 => "3",
        4 => "4",
        5 => "5",
        6 => "6",
        7 => "7",
        8 => "8",
        _ => "9",
    };
    assert(text@ =~= seq![digit_char(d as nat)]);
    text
}

/// Appends the decimal text of `n` to `out`.
fn append_decimal(out: &mut String, n: u16)
    ensures
        final(out)@ == old(out)@ + decimal_text(n as nat),
    decreases n,
{
    if n >= 10 {
        append_decimal(out, n / 10);
    }
    out.append(digit_str(n % 10));
    proof {
        if n >= 10 {
            assert(decimal_text(n as nat) == decimal_text((n / 10) as nat).push(digit_char((n % 10) as nat)));
        }
    }
    assert(out@ =~= old(out)@ + decimal_text(n as nat));
}

/// The decimal text of `n`, as `format!("{}", n)` writes it.
pub fn decimal_string(n: u16) -> (text: String)
    ensures
        text@ == decimal_text(n as nat),
{
    let mut text = String::new();
    append_decimal(&mut text, n);
    assert(text@ =~= decimal_text(n as nat));
    text
}

proof fn lemma_decimal_text(n: nat)
    ensures
        decimal_text(n).len() >= 1,
        all_digits(decimal_text(n)),
        decimal_value(decimal_text(n)) == n,
    decreases n,
{
    assert(digit_value(digit_char(n % 10)) == n % 10);
    if n < 10 {
        assert(decimal_text(n).drop_last() =~= Seq::<char>::empty());
        assert(decimal_value(Seq::<char>::empty()) == 0);
    } else {
        lemma_decimal_text(n / 10);
        lemma_decimal_value_push(decimal_text(n / 10), digit_char(n % 10));
    }
}

proof fn lemma_field_end_at(text: Seq<char>, from: int, end: int)
    requires
        0 <= from <= end <= text.len(),
        forall|i: int| from <= i < end ==> text[i] != ':',
        end == text.len() || text[end] == ':',
    ensures
        field_end(text, from) == end,
    decreases end - from,
{
    if from < end {
        lemma_field_end_at(text, from + 1, end);
    }
}

/// Decimal text is read back as the same number.
pub proof fn lemma_port_text_roundtrip(port: u16)
    ensures
        parse_u16_text(decimal_text(port as nat)) == Some(port),
{
    lemma_decimal_text(port as nat);
    let text = decimal_text(port as nat);
    assert(is_digit(text[0]));
}

/// The specification written as `LOCAL:REMOTE` in decimal is read back as the
/// same two ports.
pub proof fn lemma_forward_roundtrip(local: u16, remote: u16)
    ensures
        has_remote_field(decimal_text(local as nat) + seq![':'] + decimal_text(remote as nat)),
        parse_u16_text(local_field(decimal_text(local as nat) + seq![':'] + decimal_text(remote as nat))) == Some(local),
        parse_u16_text(remote_field(decimal_text(local as nat) + seq![':'] + decimal_text(remote as nat))) == Some(remote),
{
    let a = decimal_text(local as nat);
    let b = decimal_text(remote as nat);
    let text = a + seq![':'] + b;
    lemma_decimal_text(local as nat);
    lemma_decimal_text(remote as nat);
    lemma_port_text_roundtrip(local);
    lemma_port_text_roundtrip(remote);
    assert forall|i: int| 0 <= i < a.len() implies text[i] != ':' by {
        assert(text[i] == a[i]);
        assert(is_digit(a[i]));
    }
    assert(text[a.len() as int] == ':');
    lemma_field_end_at(text, 0, a.len() as int);
    assert forall|i: int| a.len() + 1 <= i < text.len() implies text[i] != ':' by {
        assert(text[i] == b[i - a.len() - 1]);
        assert(is_digit(b[i - a.len() - 1]));
    }
    lemma_field_end_at(text, a.len() + 1int, text.len() as int);
    assert(local_field(text) =~= a);
    assert(remote_field(text) =~= b);
}

} // verus!
