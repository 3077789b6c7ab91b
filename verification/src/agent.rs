//! The interactive trust agent: answers to pairing challenges, decided from
//! one line of human input.
//!
//! Reading that line is the caller's business. Each operation here takes
//! what was read, `None` standing for an input that could not be read, and
//! says whether the challenge is accepted.

use crate::text::{digit_char, digit_text};
use vstd::arithmetic::div_mod::lemma_div_denominator;
use vstd::prelude::*;
use vstd::string::*;

verus! {

/// Whether a character is white space in the sense of Unicode's
/// `White_Space` property, which is what trimming a line removes.
pub open spec fn is_whitespace(c: char) -> bool {
    let code = c as u32;
    ||| 0x09 <= code <= 0x0D
    ||| code == 0x20
    ||| code == 0x85
    ||| code == 0xA0
    ||| code == 0x1680
    ||| 0x2000 <= code <= 0x200A
    ||| code == 0x2028
    ||| code == 0x2029
    ||| code == 0x202F
    ||| code == 0x205F
    ||| code == 0x3000
}

/// A text without its leading white space.
pub open spec fn trim_start(text: Seq<char>) -> Seq<char>
    decreases text.len(),
{
    if text.len() > 0 && is_whitespace(text[0]) {
        trim_start(text.drop_first())
    } else {
        text
    }
}

/// A text without its trailing white space.
pub open spec fn trim_end(text: Seq<char>) -> Seq<char>
    decreases text.len(),
{
    if text.len() > 0 && is_whitespace(text.last()) {
        trim_end(text.drop_last())
    } else {
        text
    }
}

/// A text without the white space at either end.
pub open spec fn trimmed(text: Seq<char>) -> Seq<char> {
    trim_end(trim_start(text))
}

/// Dropping `count` leading white-space characters does not change what
/// `trim_start` gives.
proof fn lemma_trim_start_skips(text: Seq<char>, count: int)
    requires
        0 <= count <= text.len(),
        forall|i: int| 0 <= i < count ==> is_whitespace(#[trigger] text[i]),
    ensures
        trim_start(text) == trim_start(text.subrange(count, text.len() as int)),
    decreases count,
{
    if count == 0 {
        assert(text.subrange(0, text.len() as int) =~= text);
    } else {
        let rest = text.drop_first();
        assert(is_whitespace(text[0]));
        assert forall|i: int| 0 <= i < count - 1 implies is_whitespace(#[trigger] rest[i]) by {
            assert(rest[i] == text[i + 1]);
        }
        lemma_trim_start_skips(rest, count - 1);
        assert(rest.subrange(count - 1, rest.len() as int) =~= text.subrange(
            count,
            text.len() as int,
        ));
    }
}

/// Dropping trailing white-space characters down to length `keep` does not
/// change what `trim_end` gives.
proof fn lemma_trim_end_skips(text: Seq<char>, keep: int)
    requires
        0 <= keep <= text.len(),
        forall|i: int| keep <= i < text.len() ==> is_whitespace(#[trigger] text[i]),
    ensures
        trim_end(text) == trim_end(text.subrange(0, keep)),
    decreases text.len() - keep,
{
    if keep == text.len() {
        assert(text.subrange(0, keep) =~= text);
    } else {
        let rest = text.drop_last();
        assert(is_whitespace(text.last()));
        assert forall|i: int| keep <= i < rest.len() implies is_whitespace(#[trigger] rest[i]) by {
            assert(rest[i] == text[i]);
        }
        lemma_trim_end_skips(rest, keep);
        assert(rest.subrange(0, keep) =~= text.subrange(0, keep));
    }
}

fn whitespace(c: char) -> (result: bool)
    ensures
        result == is_whitespace(c),
{
    let code = c as u32;
    (0x09 <= code && code <= 0x0D) || code == 0x20 || code == 0x85 || code == 0xA0 || code
        == 0x1680 || (0x2000 <= code && code <= 0x200A) || code == 0x2028 || code == 0x2029
        || code == 0x202F || code == 0x205F || code == 0x3000
}

/// Removes the white space at both ends of a text.
pub fn trim(text: &str) -> (result: &str)
    ensures
        result@ == trimmed(text@),
{
    let len = text.unicode_len();
    let mut start: usize = 0;
    while start < len && whitespace(text.get_char(start))
        invariant
            start <= len,
            len == text@.len(),
            forall|i: int| 0 <= i < start ==> is_whitespace(#[trigger] text@[i]),
        decreases len - start,
    {
        start = start + 1;
    }
    let mut end: usize = len;
    while end > start && whitespace(text.get_char(end - 1))
        invariant
            start <= end <= len,
            len == text@.len(),
            forall|i: int| end <= i < len ==> is_whitespace(#[trigger] text@[i]),
        decreases end,
    {
        end = end - 1;
    }
    proof {
        let tail = text@.subrange(start as int, len as int);
        lemma_trim_start_skips(text@, start as int);
        assert(trim_start(text@) == tail) by {
            if start < len {
                assert(tail[0] == text@[start as int]);
            }
        }
        assert forall|i: int| end - start <= i < tail.len() implies is_whitespace(
            #[trigger] tail[i],
        ) by {
            assert(tail[i] == text@[i + start]);
        }
        lemma_trim_end_skips(tail, end - start);
        let core = tail.subrange(0, end - start);
        assert(core =~= text@.subrange(start as int, end as int));
        assert(trim_end(core) == core) by {
            if end > start {
                assert(core.last() == text@[end - 1]);
            }
        }
    }
    text.substring_char(start, end)
}

/// What the agent can do towards its human: the input and output modes that
/// a pairing procedure may rely on.
#[derive(Clone, Copy, Debug, PartialEq, Eq)]
pub enum Capability {
    /// Can show a passkey, takes no input.
    DisplayOnly,
    /// Can show a passkey and take a yes or a no.
    DisplayYesNo,
    /// Can take a passkey, shows nothing.
    KeyboardOnly,
    /// Neither shows nor takes anything.
    NoInputNoOutput,
    /// Can show a passkey and take a passkey or a confirmation.
    KeyboardDisplay,
}

/// The outcome of a challenge that was declined.
#[derive(Clone, Copy, Debug, PartialEq, Eq)]
pub struct Rejected;

/// The largest passkey: six decimal digits.
pub const MAX_PASSKEY: u32 = 999_999;

/// A passkey of at most six decimal digits.
#[derive(Clone, Copy, Debug, PartialEq, Eq)]
pub struct Passkey {
    value: u32,
}

impl View for Passkey {
    type V = nat;

    closed spec fn view(&self) -> nat {
        self.value as nat
    }
}

impl Passkey {
    #[verifier::type_invariant]
    spec fn in_range(self) -> bool {
        self.value <= MAX_PASSKEY
    }

    /// The passkey of this value, if the value has at most six digits.
    pub fn new(value: u32) -> (result: Option<Passkey>)
        ensures
            value <= MAX_PASSKEY ==> (result matches Some(passkey) && passkey@ == value),
            value > MAX_PASSKEY ==> result is None,
    {
        if value <= MAX_PASSKEY {
            Some(Passkey { value })
        } else {
            None
        }
    }

    /// The passkey as a number.
    pub fn value(&self) -> (result: u32)
        ensures
            result == self@,
            result <= MAX_PASSKEY,
    {
        proof {
            use_type_invariant(self);
        }
        self.value
    }

    /// Writes the passkey as the six digits that a display shows.
    pub fn to_text(&self) -> (result: String)
        ensures
            result@ == passkey_text(self@),
    {
        let value = self.value();
        let mut text = String::from_str(digit_text((value / 100_000) as u8));
        text.append(digit_text((value / 10_000 % 10) as u8));
        text.append(digit_text((value / 1_000 % 10) as u8));
        text.append(digit_text((value / 100 % 10) as u8));
        text.append(digit_text((value / 10 % 10) as u8));
        text.append(digit_text((value % 10) as u8));
        assert(text@ =~= passkey_text(self@));
        text
    }
}

/// A passkey as six decimal digits, with leading zeros where it is small.
pub open spec fn passkey_text(value: nat) -> Seq<char> {
    seq![
        digit_char(value / 100_000 % 10),
        digit_char(value / 10_000 % 10),
        digit_char(value / 1_000 % 10),
        digit_char(value / 100 % 10),
        digit_char(value / 10 % 10),
        digit_char(value % 10),
    ]
}

/// Whether a character is one of the decimal digits `0` to `9`.
pub open spec fn is_digit(c: char) -> bool {
    0x30 <= c as u32 <= 0x39
}

/// The number that a decimal digit stands for.
pub open spec fn digit_value(c: char) -> nat {
    if is_digit(c) {
        (c as u32 - 0x30) as nat
    } else {
        0
    }
}

/// The number that a run of decimal digits stands for, leading zeros
/// allowed; the empty run stands for zero.
pub open spec fn decimal_value(digits: Seq<char>) -> nat
    decreases digits.len(),
{
    if digits.len() == 0 {
        0
    } else {
        10 * decimal_value(digits.drop_last()) + digit_value(digits.last())
    }
}

/// A text without the one `+` that may lead a number.
pub open spec fn unsigned_part(text: Seq<char>) -> Seq<char> {
    if text.len() > 0 && text[0] == '+' {
        text.drop_first()
    } else {
        text
    }
}

/// The passkey that a text spells, if it spells one: an optional `+`, then
/// one or more decimal digits whose number is at most [`MAX_PASSKEY`].
pub open spec fn passkey_value(text: Seq<char>) -> Option<nat> {
    let digits = unsigned_part(text);
    if digits.len() > 0 && (forall|i: int| 0 <= i < digits.len() ==> is_digit(#[trigger] digits[i]))
        && decimal_value(digits) <= MAX_PASSKEY {
        Some(decimal_value(digits))
    } else {
        None
    }
}

/// A run of digits stands for no less than any run it starts with.
proof fn lemma_decimal_value_of_prefix(digits: Seq<char>, count: int)
    requires
        0 <= count <= digits.len(),
    ensures
        decimal_value(digits.subrange(0, count)) <= decimal_value(digits),
    decreases digits.len(),
{
    if count == digits.len() {
        assert(digits.subrange(0, count) =~= digits);
    } else {
        lemma_decimal_value_of_prefix(digits.drop_last(), count);
        assert(digits.drop_last().subrange(0, count) =~= digits.subrange(0, count));
    }
}

/// Reads a passkey from a text that holds nothing else.
pub fn parse_passkey(text: &str) -> (result: Option<Passkey>)
    ensures
        match passkey_value(text@) {
            Some(value) => result matches Some(passkey) && passkey@ == value,
            None => result is None,
        },
{
    let len = text.unicode_len();
    let first: usize = if len > 0 && text.get_char(0) == '+' {
        1
    } else {
        0
    };
    let ghost digits = unsigned_part(text@);
    assert(digits =~= text@.subrange(first as int, len as int));
    if first == len {
        return None;
    }
    let mut at: usize = first;
    let mut value: u32 = 0;
    while at < len
        invariant
            first <= at <= len,
            len == text@.len(),
            digits == unsigned_part(text@),
            digits == text@.subrange(first as int, len as int),
            forall|i: int| 0 <= i < at - first ==> is_digit(#[trigger] digits[i]),
            value == decimal_value(digits.subrange(0, at - first)),
            value <= MAX_PASSKEY,
        decreases len - at,
    {
        let code = text.get_char(at) as u32;
        assert(digits[at - first] == text@[at as int]);
        if code < 0x30 || code > 0x39 {
            assert(!is_digit(digits[at - first]));
            return None;
        }
        let ghost longer = digits.subrange(0, at - first + 1);
        assert(longer.drop_last() =~= digits.subrange(0, at - first));
        assert(longer.last() == digits[at - first]);
        value = value * 10 + (code - 0x30);
        assert(value == decimal_value(longer));
        if value > MAX_PASSKEY {
            proof {
                lemma_decimal_value_of_prefix(digits, at - first + 1);
            }
            return None;
        }
        at = at + 1;
    }
    assert(digits.subrange(0, at - first) =~= digits);
    Some(Passkey { value })
}

/// Whether a line of input says yes: nothing but white space, or the one
/// letter `y` or `Y` with white space around it at most.
pub open spec fn is_affirmative(line: Seq<char>) -> bool {
    let token = trimmed(line);
    token.len() == 0 || token == seq!['y'] || token == seq!['Y']
}

/// The answer to a yes-or-no challenge that a human input stands for.
pub open spec fn confirmation(input: Option<Seq<char>>) -> Result<(), Rejected> {
    match input {
        Some(line) if is_affirmative(line) => Ok(()),
        _ => Err(Rejected),
    }
}

/// The passkey that a human input enters, if it enters one: the line
/// without the white space around it has to spell a passkey.
pub open spec fn entered_passkey(input: Option<Seq<char>>) -> Option<nat> {
    match input {
        Some(line) => passkey_value(trimmed(line)),
        None => None,
    }
}

/// What was read from the human, as contracts see it.
pub open spec fn input_view(input: Option<&str>) -> Option<Seq<char>> {
    match input {
        Some(line) => Some(line@),
        None => None,
    }
}

fn says_yes(line: &str) -> (result: bool)
    ensures
        result == is_affirmative(line@),
{
    let token = trim(line);
    let len = token.unicode_len();
    if len == 0 {
        true
    } else if len == 1 {
        let c = token.get_char(0);
        assert(token@ =~= seq![c]);
        assert(seq!['y'][0] == 'y' && seq!['Y'][0] == 'Y');
        c == 'y' || c == 'Y'
    } else {
        assert(seq!['y'].len() == 1 && seq!['Y'].len() == 1);
        false
    }
}

/// The trust agent that puts every challenge to a human.
///
/// The agent keeps no state. Its caller shows the prompt, reads one line,
/// and hands over what was read.
#[derive(Clone, Copy, Debug, PartialEq, Eq)]
pub struct InteractiveAgent;

/// The question that asks for a plain confirmation.
pub open spec fn confirm_prompt_text(label: Seq<char>) -> Seq<char> {
    "accept pairing with "@ + label + "? (Y/n)"@
}

/// The question that asks whether the peripheral shows the passkey.
pub open spec fn confirm_passkey_prompt_text(label: Seq<char>, passkey: nat) -> Seq<char> {
    "Is the passkey \""@ + passkey_text(passkey) + "\" displayed on "@ + label + "? (Y/n)"@
}

/// The request to type the passkey that the peripheral shows.
pub open spec fn request_passkey_prompt_text(label: Seq<char>) -> Seq<char> {
    "Please enter the 6-digit passkey for "@ + label + ": "@
}

/// The notice that shows the passkey to type on the peripheral.
pub open spec fn display_passkey_text(label: Seq<char>, passkey: nat) -> Seq<char> {
    "The passkey is \""@ + passkey_text(passkey) + "\" for "@ + label + "."@
}

impl InteractiveAgent {
    /// Writes the question of a plain confirmation about the peripheral
    /// that `label` names.
    pub fn confirm_prompt(&self, label: &str) -> (result: String)
        ensures
            result@ == confirm_prompt_text(label@),
    {
        let mut prompt = String::from_str("accept pairing with ");
        prompt.append(label);
        prompt.append("? (Y/n)");
        prompt
    }

    /// Writes the question of a passkey confirmation.
    pub fn confirm_passkey_prompt(&self, label: &str, passkey: Passkey) -> (result: String)
        ensures
            result@ == confirm_passkey_prompt_text(label@, passkey@),
    {
        let digits = passkey.to_text();
        let mut prompt = String::from_str("Is the passkey \"");
        prompt.append(digits.as_str());
        prompt.append("\" displayed on ");
        prompt.append(label);
        prompt.append("? (Y/n)");
        prompt
    }

    /// Writes the request for a passkey.
    pub fn request_passkey_prompt(&self, label: &str) -> (result: String)
        ensures
            result@ == request_passkey_prompt_text(label@),
    {
        let mut prompt = String::from_str("Please enter the 6-digit passkey for ");
        prompt.append(label);
        prompt.append(": ");
        prompt
    }

    /// Writes the notice that shows a passkey. Nothing is asked and no
    /// answer is taken.
    pub fn display_passkey(&self, label: &str, passkey: Passkey) -> (result: String)
        ensures
            result@ == display_passkey_text(label@, passkey@),
    {
        let digits = passkey.to_text();
        let mut notice = String::from_str("The passkey is \"");
        notice.append(digits.as_str());
        notice.append("\" for ");
        notice.append(label);
        notice.append(".");
        notice
    }

    /// The agent can show a passkey and take typed input.
    pub fn io_capability(&self) -> (result: Capability)
        ensures
            result == Capability::KeyboardDisplay,
    {
        Capability::KeyboardDisplay
    }

    /// Answers a plain confirmation request from the line that was read.
    /// An input that could not be read declines.
    pub fn confirm(&self, input: Option<&str>) -> (result: Result<(), Rejected>)
        ensures
            result == confirmation(input_view(input)),
    {
        match input {
            Some(line) => {
                if says_yes(line) {
                    Ok(())
                } else {
                    Err(Rejected)
                }
            },
            None => Err(Rejected),
        }
    }

    /// Answers the request to confirm a passkey that the human was shown,
    /// by the same rule as a plain confirmation.
    pub fn confirm_passkey(&self, passkey: Passkey, input: Option<&str>) -> (result: Result<
        (),
        Rejected,
    >)
        ensures
            result == confirmation(input_view(input)),
    {
        self.confirm(input)
    }

    /// Takes the passkey that the human typed. An input that could not be
    /// read, or that spells no passkey, declines; there is no second try.
    pub fn request_passkey(&self, input: Option<&str>) -> (result: Result<Passkey, Rejected>)
        ensures
            match entered_passkey(input_view(input)) {
                Some(value) => result matches Ok(passkey) && passkey@ == value,
                None => result == Err::<Passkey, Rejected>(Rejected),
            },
    {
        match input {
            Some(line) => {
                match parse_passkey(trim(line)) {
                    Some(passkey) => Ok(passkey),
                    None => Err(Rejected),
                }
            },
            None => Err(Rejected),
        }
    }
}

/// An empty line, the letter `y` and the letter `Y` confirm. Any other
/// line that neither starts nor ends with white space declines, and so
/// does an input that could not be read.
pub proof fn lemma_confirmation_rule(line: Seq<char>)
    requires
        line.len() > 0 ==> !is_whitespace(line[0]) && !is_whitespace(line.last()),
    ensures
        confirmation(Some(line)) is Ok <==> line == Seq::<char>::empty() || line == seq!['y']
            || line == seq!['Y'],
        confirmation(Some(Seq::<char>::empty())) is Ok,
        confirmation(Some(seq!['y'])) is Ok,
        confirmation(Some(seq!['Y'])) is Ok,
        confirmation(None) is Err,
{
    assert(trimmed(line) == line);
    assert(trimmed(Seq::<char>::empty()) == Seq::<char>::empty());
    assert(trimmed(seq!['y']) == seq!['y']) by {
        assert(!is_whitespace(seq!['y'][0]));
        assert(!is_whitespace(seq!['y'].last()));
    }
    assert(trimmed(seq!['Y']) == seq!['Y']) by {
        assert(!is_whitespace(seq!['Y'][0]));
        assert(!is_whitespace(seq!['Y'].last()));
    }
    assert(line.len() == 0 ==> line =~= Seq::<char>::empty());
}

/// White space around a line does not change the answer it gives.
pub proof fn lemma_confirmation_ignores_white_space(line: Seq<char>)
    ensures
        confirmation(Some(line)) == confirmation(Some(trimmed(line))),
{
    lemma_trim_is_idempotent(line);
}

/// A trimmed text has no white space left at its ends, so trimming it
/// again changes nothing.
pub proof fn lemma_trim_is_idempotent(text: Seq<char>)
    ensures
        trimmed(text).len() > 0 ==> !is_whitespace(trimmed(text)[0]) && !is_whitespace(
            trimmed(text).last(),
        ),
        trimmed(trimmed(text)) == trimmed(text),
{
    lemma_trim_start_is_suffix(text);
    lemma_trim_end_keeps_start(trim_start(text));
}

/// What `trim_start` gives starts with no white space and is the text
/// itself from some place on.
proof fn lemma_trim_start_is_suffix(text: Seq<char>)
    ensures
        trim_start(text).len() > 0 ==> !is_whitespace(trim_start(text)[0]),
        trim_start(trim_start(text)) == trim_start(text),
    decreases text.len(),
{
    if text.len() > 0 && is_whitespace(text[0]) {
        lemma_trim_start_is_suffix(text.drop_first());
    }
}

/// What `trim_end` gives ends with no white space, and it starts as the
/// text does.
proof fn lemma_trim_end_keeps_start(text: Seq<char>)
    ensures
        trim_end(text).len() > 0 ==> !is_whitespace(trim_end(text).last()) && trim_end(text)[0]
            == text[0],
        trim_end(trim_end(text)) == trim_end(text),
    decreases text.len(),
{
    if text.len() > 0 && is_whitespace(text.last()) {
        lemma_trim_end_keeps_start(text.drop_last());
        if trim_end(text.drop_last()).len() > 0 {
            assert(text.drop_last()[0] == text[0]);
        }
    }
}

/// A number of at most six digits is the sum of its digits, each times its power of ten.
proof fn lemma_six_digits(value: nat)
    requires
        value <= MAX_PASSKEY,
    ensures
        value == 100_000 * (value / 100_000 % 10) + 10_000 * (value / 10_000 % 10) + 1_000 * (value
            / 1_000 % 10) + 100 * (value / 100 % 10) + 10 * (value / 10 % 10) + value % 10,
{
    let number = value as int;
    let by_ten = number / 10;
    let by_hundred = by_ten / 10;
    let by_thousand = by_hundred / 10;
    let by_ten_thousand = by_thousand / 10;
    lemma_div_denominator(number, 10, 10);
    lemma_div_denominator(number, 100, 10);
    lemma_div_denominator(number, 1_000, 10);
    lemma_div_denominator(number, 10_000, 10);
    assert(by_hundred == number / 100);
    assert(by_thousand == number / 1_000);
    assert(by_ten_thousand == number / 10_000);
    assert(by_ten_thousand / 10 == number / 100_000);
    assert(number / 100_000 < 10);
}

/// What a run of six digits stands for.
proof fn lemma_decimal_value_of_six(a: nat, b: nat, c: nat, d: nat, e: nat, f: nat)
    requires
        a < 10,
        b < 10,
        c < 10,
        d < 10,
        e < 10,
        f < 10,
    ensures
        decimal_value(
            seq![
                digit_char(a),
                digit_char(b),
                digit_char(c),
                digit_char(d),
                digit_char(e),
                digit_char(f),
            ],
        ) == 100_000 * a + 10_000 * b + 1_000 * c + 100 * d + 10 * e + f,
{
    let t6 = seq![
        digit_char(a),
        digit_char(b),
        digit_char(c),
        digit_char(d),
        digit_char(e),
        digit_char(f),
    ];
    let t5 = seq![digit_char(a), digit_char(b), digit_char(c), digit_char(d), digit_char(e)];
    let t4 = seq![digit_char(a), digit_char(b), digit_char(c), digit_char(d)];
    let t3 = seq![digit_char(a), digit_char(b), digit_char(c)];
    let t2 = seq![digit_char(a), digit_char(b)];
    let t1 = seq![digit_char(a)];
    assert(t6.drop_last() =~= t5 && t5.drop_last() =~= t4 && t4.drop_last() =~= t3);
    assert(t3.drop_last() =~= t2 && t2.drop_last() =~= t1 && t1.drop_last() =~= Seq::<char>::empty());
    assert(decimal_value(t1.drop_last()) == 0);
    assert(decimal_value(t1) == a);
    assert(decimal_value(t2) == 10 * a + b);
    assert(decimal_value(t3) == 100 * a + 10 * b + c);
    assert(decimal_value(t4) == 1_000 * a + 100 * b + 10 * c + d);
    assert(decimal_value(t5) == 10_000 * a + 1_000 * b + 100 * c + 10 * d + e);
}

/// The six digits that show a passkey spell that passkey: typed back as
/// they are shown, they are taken as the same passkey.
pub proof fn lemma_shown_passkey_reads_back(value: nat)
    requires
        value <= MAX_PASSKEY,
    ensures
        passkey_value(passkey_text(value)) == Some(value),
        entered_passkey(Some(passkey_text(value))) == Some(value),
{
    let text = passkey_text(value);
    lemma_six_digits(value);
    lemma_decimal_value_of_six(
        value / 100_000 % 10,
        value / 10_000 % 10,
        value / 1_000 % 10,
        value / 100 % 10,
        value / 10 % 10,
        value % 10,
    );
    assert(decimal_value(text) == value);
    assert(!is_whitespace(text[0]) && text[0] != '+');
    assert(!is_whitespace(text.last()));
    assert(unsigned_part(text) == text);
    assert(trimmed(text) == text);
    assert forall|i: int| 0 <= i < text.len() implies is_digit(#[trigger] text[i]) by {}
}

} // verus!
