//! The text of the hour and minute boxes.
//!
//! A box shows its number in decimal and takes one back. While the user
//! types, every intermediate text is checked against the box's upper limit;
//! when the edit is committed, the text is read as a number. A text is read
//! as Rust reads a `u8`: an optional `+`, then decimal digits and nothing
//! else, with a value of at most 255.

use vstd::prelude::*;
use vstd::string::*;

verus! {

/// What every rejected text is answered with, whichever box it was typed in.
pub const INVALID_INPUT_MESSAGE: &'static str = "Input must be a number between 0 and 24.";

/// The largest number the hour box lets through while the user types.
pub const HOURS_LIMIT: u8 = 24;

/// The largest number the minute box lets through while the user types.
pub const MINUTES_LIMIT: u8 = 60;

/// Why a text was turned down.
#[derive(Debug, Clone)]
pub struct InputValidationError {
    message: String,
}

impl View for InputValidationError {
    type V = Seq<char>;

    /// The message, as characters.
    closed spec fn view(&self) -> Seq<char> {
        self.message@
    }
}

impl InputValidationError {
    /// An error that carries `message`.
    pub fn new(message: &str) -> (error: Self)
        ensures
            error@ == message@,
    {
        InputValidationError { message: String::from_str(message) }
    }

    /// The message, as it is shown to the user.
    pub fn to_string(&self) -> (text: String)
        ensures
            text@ == self@,
    {
        self.message.clone()
    }
}

/// The verdict on a text that is still being typed.
#[derive(Debug, Clone)]
pub enum Validation {
    /// The edit may stand.
    Success,
    /// The edit is turned down, for the reason given.
    Failure(InputValidationError),
}

impl Validation {
    /// Whether the edit was turned down.
    pub fn is_err(&self) -> (failed: bool)
        ensures
            failed == (self is Failure),
    {
        match self {
            Validation::Success => false,
            Validation::Failure(_) => true,
        }
    }
}

/// The decimal digits `'0'..='9'`.
pub open spec fn is_digit(c: char) -> bool {
    '0' <= c && c <= '9'
}

/// The number a decimal digit stands for.
pub open spec fn digit_value(c: char) -> nat
    recommends
        is_digit(c),
{
    (c as u32 - '0' as u32) as nat
}

/// The digit that stands for a number below ten.
pub open spec fn digit_char(d: nat) -> char
    recommends
        d < 10,
{
    if d == 0 {
        '0'
    } else if d == 1 {
        '1'
    } else if d == 2 {
        '2'
    } else if d == 3 {
        '3'
    } else if d == 4 {
        '4'
    } else if d == 5 {
        '5'
    } else if d == 6 {
        '6'
    } else if d == 7 {
        '7'
    } else if d == 8 {
        '8'
    } else {
        '9'
    }
}

/// Every character of `s` is a decimal digit.
pub open spec fn all_digits(s: Seq<char>) -> bool {
    forall|i: int| 0 <= i < s.len() ==> is_digit(#[trigger] s[i])
}

/// The number that a run of decimal digits writes, most significant digit
/// first. The empty run writes 0.
pub open spec fn decimal_value(s: Seq<char>) -> nat
    recommends
        all_digits(s),
    decreases s.len(),
{
    if s.len() == 0 {
        0
    } else {
        decimal_value(s.drop_last()) * 10 + digit_value(s.last())
    }
}

/// The text without its leading `+`, if it has one.
pub open spec fn unsigned_part(s: Seq<char>) -> Seq<char> {
    if s.len() > 0 && s[0] == '+' {
        s.subrange(1, s.len() as int)
    } else {
        s
    }
}

/// The `u8` that a text writes: an optional `+`, then one or more decimal
/// digits whose value is at most 255. Any other text writes none.
pub open spec fn parsed_u8(s: Seq<char>) -> Option<u8> {
    let digits = unsigned_part(s);
    if digits.len() > 0 && all_digits(digits) && decimal_value(digits) <= u8::MAX {
        Some(decimal_value(digits) as u8)
    } else {
        None
    }
}

/// A text may stand while it is typed if it is empty or writes a number of
/// at most `upper_limit`.
pub open spec fn accepts_partial(s: Seq<char>, upper_limit: u8) -> bool {
    s.len() == 0 || (parsed_u8(s) matches Some(n) && n <= upper_limit)
}

/// The number that a committed text stands for: 0 for the empty text, else
/// the `u8` that it writes.
pub open spec fn committed_value(s: Seq<char>) -> Option<u8> {
    if s.len() == 0 {
        Some(0)
    } else {
        parsed_u8(s)
    }
}

/// The decimal digits of `n`, most significant first, with no leading zero;
/// `"0"` for zero.
pub open spec fn decimal_digits(n: nat) -> Seq<char>
    decreases n,
{
    if n < 10 {
        seq![digit_char(n)]
    } else {
        decimal_digits(n / 10).push(digit_char(n % 10))
    }
}

/// `verdict` is the right answer to the partial text `s` in a box with the
/// given limit: success if the text may stand, else the fixed message.
pub open spec fn is_partial_verdict(s: Seq<char>, upper_limit: u8, verdict: Validation) -> bool {
    if accepts_partial(s, upper_limit) {
        verdict is Success
    } else {
        verdict matches Validation::Failure(e) && e@ == INVALID_INPUT_MESSAGE@
    }
}

/// `outcome` is the right reading of the committed text `s`: its number if
/// it stands for one, else the fixed message.
pub open spec fn is_committed_outcome(
    s: Seq<char>,
    outcome: Result<u8, InputValidationError>,
) -> bool {
    match committed_value(s) {
        Some(n) => outcome == Ok::<u8, InputValidationError>(n),
        None => outcome matches Err(e) && e@ == INVALID_INPUT_MESSAGE@,
    }
}

/// Appending a digit to a run multiplies its value by ten and adds the digit.
pub proof fn lemma_decimal_value_push(s: Seq<char>, c: char)
    ensures
        decimal_value(s.push(c)) == decimal_value(s) * 10 + digit_value(c),
{
    assert(s.push(c).drop_last() =~= s);
}

/// A run of digits writes at least as much as each of its prefixes.
pub proof fn lemma_decimal_value_prefix(s: Seq<char>, k: int)
    requires
        0 <= k <= s.len(),
    ensures
        decimal_value(s.subrange(0, k)) <= decimal_value(s),
    decreases s.len(),
{
    if k == s.len() {
        assert(s.subrange(0, k) =~= s);
    } else {
        lemma_decimal_value_prefix(s.drop_last(), k);
        assert(s.drop_last().subrange(0, k) =~= s.subrange(0, k));
    }
}

/// The number a decimal digit stands for, if the character is one.
fn digit_of(c: char) -> (d: Option<u8>)
    ensures
        d is Some <==> is_digit(c),
        d matches Some(v) ==> v == digit_value(c) && v < 10,
{
    if '0' <= c && c <= '9' {
        Some((c as u32 - '0' as u32) as u8)
    } else {
        None
    }
}

/// The digits among the first `read` characters of `s`: all of them but a
/// leading `+`.
spec fn digits_read(s: Seq<char>, read: int) -> Seq<char> {
    unsigned_part(s.subrange(0, read))
}

/// Reading one more character that is not a leading `+` appends it to the
/// digits read, and these stay a prefix of the text's unsigned part.
proof fn lemma_digits_read_step(s: Seq<char>, read: int)
    requires
        0 <= read < s.len(),
        read > 0 || s[0] != '+',
    ensures
        digits_read(s, read + 1) == digits_read(s, read).push(s[read]),
        digits_read(s, read + 1) == unsigned_part(s).subrange(
            0,
            digits_read(s, read + 1).len() as int,
        ),
{
    let sign: int = if s[0] == '+' { 1 } else { 0 };
    assert(digits_read(s, read + 1) =~= s.subrange(sign, read + 1));
    assert(digits_read(s, read) =~= s.subrange(sign, read));
    assert(unsigned_part(s) =~= s.subrange(sign, s.len() as int));
    assert(s.subrange(sign, read + 1) =~= s.subrange(sign, read).push(s[read]));
    assert(s.subrange(sign, read + 1) =~= s.subrange(sign, s.len() as int).subrange(
        0,
        read + 1 - sign,
    ));
}

/// Reads a text as a `u8`.
pub fn parse_u8(input: &str) -> (number: Option<u8>)
    ensures
        number == parsed_u8(input@),
{
    let mut value: u16 = 0;
    let mut started = false;
    let mut has_digit = false;
    for c in it: input.chars()
        invariant
            it.seq() == input@,
            started == (it.index() > 0),
            has_digit == (digits_read(input@, it.index()).len() > 0),
            all_digits(digits_read(input@, it.index())),
            value == decimal_value(digits_read(input@, it.index())),
            value <= u8::MAX,
    {
        if !started && c == '+' {
            started = true;
        } else {
            started = true;
            proof {
                lemma_digits_read_step(input@, it.index());
                lemma_decimal_value_push(digits_read(input@, it.index()), c);
            }
            match digit_of(c) {
                None => {
                    return None;
                },
                Some(d) => {
                    let next: u16 = value * 10 + d as u16;
                    if next > 255 {
                        proof {
                            lemma_decimal_value_prefix(
                                unsigned_part(input@),
                                digits_read(input@, it.index() + 1).len() as int,
                            );
                        }
                        return None;
                    }
                    value = next;
                    has_digit = true;
                },
            }
        }
    }
    assert(input@.subrange(0, input@.len() as int) =~= input@);
    if has_digit {
        Some(value as u8)
    } else {
        None
    }
}

/// The error that every rejected text is answered with.
fn invalid_input() -> (error: InputValidationError)
    ensures
        error@ == INVALID_INPUT_MESSAGE@,
{
    InputValidationError::new(INVALID_INPUT_MESSAGE)
}

/// The text for a number below ten.
fn digit_text(d: u8) -> (text: &'static str)
    requires
        d < 10,
    ensures
        text@ == seq![digit_char(d as nat)],
{
    proof {
        reveal_strlit("0");
        reveal_strlit("1");
        reveal_strlit("2");
        reveal_strlit("3");
        reveal_strlit("4");
        reveal_strlit("5");
        reveal_strlit("6");
        reveal_strlit("7");
        reveal_strlit("8");
        reveal_strlit("9");
    }
    let text = match d {
        0 => "0",
        1 => "1",
        2 => "2",
        3 => "3",
        4 => "4",
        5 => "5",
        6 => "6",
        7 => "7",
        8 => "8",
        _ => "9",
    };
    assert(text@ =~= seq![digit_char(d as nat)]);
    text
}

/// Writes a number in decimal, as a box shows it.
pub fn format(value: &u8) -> (text: String)
    ensures
        text@ == decimal_digits(*value as nat),
{
    let v: u8 = *value;
    let mut text = String::new();
    if v >= 100 {
        text.append(digit_text(v / 100));
    }
    if v >= 10 {
        text.append(digit_text(v / 10 % 10));
    }
    text.append(digit_text(v % 10));
    proof {
        reveal_with_fuel(decimal_digits, 3);
        assert(text@ =~= decimal_digits(v as nat));
    }
    text
}

/// Checks a text that is still being typed against a box's upper limit.
///
/// The empty text may stand, and so may any text that writes a number of at
/// most `upper_limit`. Every other text is turned down with
/// [`INVALID_INPUT_MESSAGE`].
pub fn validate_partial_input(input: &str, upper_limit: u8) -> (verdict: Validation)
    ensures
        is_partial_verdict(input@, upper_limit, verdict),
{
    if input.is_empty() {
        return Validation::Success;
    }
    match parse_u8(input) {
        Some(num) if num <= upper_limit => Validation::Success,
        _ => Validation::Failure(invalid_input()),
    }
}

/// Reads a committed text as a number.
///
/// The empty text stands for 0. A text that writes no `u8` is turned down
/// with [`INVALID_INPUT_MESSAGE`].
pub fn value(input: &str) -> (outcome: Result<u8, InputValidationError>)
    ensures
        is_committed_outcome(input@, outcome),
{
    if input.is_empty() {
        return Ok(0);
    }
    match parse_u8(input) {
        Some(num) => Ok(num),
        None => Err(invalid_input()),
    }
}

/// The text side of the hour box.
pub struct HoursFormatter;

/// The text side of the minute box.
pub struct MinutesFormatter;

impl HoursFormatter {
    /// Writes the hour in decimal.
    pub fn format(&self, value: &u8) -> (text: String)
        ensures
            text@ == decimal_digits(*value as nat),
    {
        format(value)
    }

    /// Checks a text that is still being typed: it may write at most
    /// [`HOURS_LIMIT`].
    pub fn validate_partial_input(&self, input: &str) -> (verdict: Validation)
        ensures
            is_partial_verdict(input@, HOURS_LIMIT, verdict),
    {
        validate_partial_input(input, HOURS_LIMIT)
    }

    /// Reads a committed text as an hour.
    pub fn value(&self, input: &str) -> (outcome: Result<u8, InputValidationError>)
        ensures
            is_committed_outcome(input@, outcome),
    {
        value(input)
    }
}

impl MinutesFormatter {
    /// Writes the minute in decimal.
    pub fn format(&self, value: &u8) -> (text: String)
        ensures
            text@ == decimal_digits(*value as nat),
    {
        format(value)
    }

    /// Checks a text that is still being typed: it may write at most
    /// [`MINUTES_LIMIT`].
    pub fn validate_partial_input(&self, input: &str) -> (verdict: Validation)
        ensures
            is_partial_verdict(input@, MINUTES_LIMIT, verdict),
    {
        validate_partial_input(input, MINUTES_LIMIT)
    }

    /// Reads a committed text as a minute.
    pub fn value(&self, input: &str) -> (outcome: Result<u8, InputValidationError>)
        ensures
            is_committed_outcome(input@, outcome),
    {
        value(input)
    }
}

/// What a box shows for a number reads back as that number, and may stand
/// as a partial text under every limit that the number is within.
pub proof fn lemma_format_reads_back(n: u8)
    ensures
        parsed_u8(decimal_digits(n as nat)) == Some(n),
        committed_value(decimal_digits(n as nat)) == Some(n),
        forall|upper_limit: u8|
            n <= upper_limit ==> #[trigger] accepts_partial(decimal_digits(n as nat), upper_limit),
{
    let s = decimal_digits(n as nat);
    reveal_with_fuel(decimal_digits, 3);
    reveal_with_fuel(decimal_value, 4);
    lemma_digit_char_is_digit((n / 100) as nat);
    lemma_digit_char_is_digit((n / 10 % 10) as nat);
    lemma_digit_char_is_digit((n % 10) as nat);
    if n < 10 {
        assert(s =~= seq![digit_char(n as nat)]);
        assert(s.drop_last() =~= Seq::<char>::empty());
    } else if n < 100 {
        assert(s =~= seq![digit_char((n / 10) as nat), digit_char((n % 10) as nat)]);
        assert(s.drop_last() =~= seq![digit_char((n / 10) as nat)]);
        assert(s.drop_last().drop_last() =~= Seq::<char>::empty());
    } else {
        assert(s =~= seq![
            digit_char((n / 100) as nat),
            digit_char((n / 10 % 10) as nat),
            digit_char((n % 10) as nat),
        ]);
        assert(s.drop_last() =~= seq![
            digit_char((n / 100) as nat),
            digit_char((n / 10 % 10) as nat),
        ]);
        assert(s.drop_last().drop_last() =~= seq![digit_char((n / 100) as nat)]);
        assert(s.drop_last().drop_last().drop_last() =~= Seq::<char>::empty());
    }
    assert(unsigned_part(s) == s);
}

/// The digit for a number below ten is a decimal digit and stands for that
/// number.
pub proof fn lemma_digit_char_is_digit(d: nat)
    requires
        d < 10,
    ensures
        is_digit(digit_char(d)),
        digit_value(digit_char(d)) == d,
{
}

} // verus!
