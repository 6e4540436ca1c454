use vstd::prelude::*;
use vstd::string::*;
use crate::text::{owned, push_char};

verus! {

/// The decimal digit character for `d`, for `d` in 0..9 (and '9' for any other value).
pub open spec fn digit_char(d: int) -> char {
    if d == 0 {
        '0'
    } else if d == 1 {
        '1'
    } else if d == 2 {
        '2'
    } else if d == 3 {
        '3'
    } else if d == 4 {
        '4'
    } else if d == 5 {
        '5'
    } else if d == 6 {
        '6'
    } else if d == 7 {
        '7'
    } else if d == 8 {
        '8'
    } else {
        '9'
    }
}

/// The last `w` decimal digits of `n`, zero-padded on the left.
pub open spec fn padded(n: nat, w: nat) -> Seq<char>
    decreases w,
{
    if w == 0 {
        Seq::empty()
    } else {
        padded(n / 10, (w - 1) as nat).push(digit_char((n % 10) as int))
    }
}

fn digit(d: u32) -> (r: char)
    requires
        d < 10,
    ensures
        r == digit_char(d as int),
{
    if d == 0 {
        '0'
    } else if d == 1 {
        '1'
    } else if d == 2 {
        '2'
    } else if d == 3 {
        '3'
    } else if d == 4 {
        '4'
    } else if d == 5 {
        '5'
    } else if d == 6 {
        '6'
    } else if d == 7 {
        '7'
    } else if d == 8 {
        '8'
    } else {
        '9'
    }
}

/// Appends the last `w` decimal digits of `n`, zero-padded.
fn push_padded(out: &mut String, n: u32, w: u32)
    ensures
        final(out)@ == old(out)@ + padded(n as nat, w as nat),
    decreases w,
{
    if w > 0 {
        push_padded(out, n / 10, w - 1);
        push_char(out, digit(n % 10));
    } else {
        assert(old(out)@ + padded(n as nat, w as nat) == old(out)@);
    }
}

/// A local date and time to the second, with its offset from UTC in minutes.
#[derive(Clone, Copy, Debug, PartialEq, Eq, Structural)]
pub struct Timestamp {
    pub year: u16,
    pub month: u8,
    pub day: u8,
    pub hour: u8,
    pub minute: u8,
    pub second: u8,
    pub offset_minutes: i16,
}

impl Timestamp {
    /// Every field lies in its calendar range.
    pub open spec fn wf(&self) -> bool {
        &&& self.year <= 9999
        &&& 1 <= self.month <= 12
        &&& 1 <= self.day <= 31
        &&& self.hour <= 23
        &&& self.minute <= 59
        &&& self.second <= 59
        &&& -1439 <= self.offset_minutes <= 1439
    }

    /// Builds a timestamp, or `None` where a field is out of range.
    pub fn new(
        year: u16,
        month: u8,
        day: u8,
        hour: u8,
        minute: u8,
        second: u8,
        offset_minutes: i16,
    ) -> (r: Option<Timestamp>)
        ensures
            r matches Some(t) ==> t.wf() && t == (Timestamp {
                year,
                month,
                day,
                hour,
                minute,
                second,
                offset_minutes,
            }),
            r is None ==> !(Timestamp { year, month, day, hour, minute, second, offset_minutes }).wf(),
    {
        let t = Timestamp { year, month, day, hour, minute, second, offset_minutes };
        if year <= 9999 && 1 <= month && month <= 12 && 1 <= day && day <= 31 && hour <= 23
            && minute <= 59 && second <= 59 && -1439 <= offset_minutes && offset_minutes <= 1439 {
            Some(t)
        } else {
            None
        }
    }
}

/// The name of an attempt folder: `YYYYMMDD_HHMMSS` in local time.
pub open spec fn attempt_folder_text(t: Timestamp) -> Seq<char> {
    padded(t.year as nat, 4) + padded(t.month as nat, 2) + padded(t.day as nat, 2) + seq!['_']
        + padded(t.hour as nat, 2) + padded(t.minute as nat, 2) + padded(t.second as nat, 2)
}

/// A UTC offset as `+HH:MM` or `-HH:MM`.
pub open spec fn offset_text(m: int) -> Seq<char> {
    let a: nat = if m < 0 { (-m) as nat } else { m as nat };
    seq![if m < 0 { '-' } else { '+' }] + padded(a / 60, 2) + seq![':'] + padded(a % 60, 2)
}

/// An offset date-time as written in the attribute files:
/// `YYYY-MM-DDTHH:MM:SS+HH:MM`.
pub open spec fn datetime_text(t: Timestamp) -> Seq<char> {
    padded(t.year as nat, 4) + seq!['-'] + padded(t.month as nat, 2) + seq!['-'] + padded(
        t.day as nat,
        2,
    ) + seq!['T'] + padded(t.hour as nat, 2) + seq![':'] + padded(t.minute as nat, 2) + seq![':']
        + padded(t.second as nat, 2) + offset_text(t.offset_minutes as int)
}

/// Formats the attempt folder name of a timestamp.
pub fn attempt_folder_name(t: &Timestamp) -> (r: String)
    ensures
        r@ == attempt_folder_text(*t),
{
    let mut s = String::new();
    push_padded(&mut s, t.year as u32, 4);
    push_padded(&mut s, t.month as u32, 2);
    push_padded(&mut s, t.day as u32, 2);
    push_char(&mut s, '_');
    push_padded(&mut s, t.hour as u32, 2);
    push_padded(&mut s, t.minute as u32, 2);
    push_padded(&mut s, t.second as u32, 2);
    s
}

/// Formats a timestamp as an offset date-time.
pub fn datetime_string(t: &Timestamp) -> (r: String)
    requires
        t.wf(),
    ensures
        r@ == datetime_text(*t),
{
    let mut s = String::new();
    push_padded(&mut s, t.year as u32, 4);
    push_char(&mut s, '-');
    push_padded(&mut s, t.month as u32, 2);
    push_char(&mut s, '-');
    push_padded(&mut s, t.day as u32, 2);
    push_char(&mut s, 'T');
    push_padded(&mut s, t.hour as u32, 2);
    push_char(&mut s, ':');
    push_padded(&mut s, t.minute as u32, 2);
    push_char(&mut s, ':');
    push_padded(&mut s, t.second as u32, 2);
    let m = t.offset_minutes;
    let a: u32 = if m < 0 { (-m) as u32 } else { m as u32 };
    push_char(&mut s, if m < 0 { '-' } else { '+' });
    push_padded(&mut s, a / 60, 2);
    push_char(&mut s, ':');
    push_padded(&mut s, a % 60, 2);
    s
}

/// How hard the question service rates a question.
#[derive(Clone, Copy, Debug, PartialEq, Eq, Structural)]
pub enum QuestionDifficulty {
    Easy,
    Medium,
    Hard,
}

/// The name the question service and the attribute file use for a difficulty.
pub open spec fn difficulty_name(d: QuestionDifficulty) -> Seq<char> {
    match d {
        QuestionDifficulty::Easy => "Easy"@,
        QuestionDifficulty::Medium => "Medium"@,
        QuestionDifficulty::Hard => "Hard"@,
    }
}

impl QuestionDifficulty {
    /// The difficulty's name.
    pub fn name(&self) -> (r: &'static str)
        ensures
            r@ == difficulty_name(*self),
    {
        match self {
            QuestionDifficulty::Easy => "Easy",
            QuestionDifficulty::Medium => "Medium",
            QuestionDifficulty::Hard => "Hard",
        }
    }
}

/// The TOML string literal that `toml_edit` writes for a string value.
pub uninterp spec fn toml_string_of(s: Seq<char>) -> Seq<char>;

/// A character that a TOML basic string holds without any escape.
pub open spec fn is_plain_toml_char(c: char) -> bool {
    c as u32 >= 0x20 && c != '"' && c != '\\' && c as u32 != 0x7f
}

/// A string whose characters all stand unescaped in a TOML basic string.
pub open spec fn is_plain_toml_str(s: Seq<char>) -> bool {
    forall|i: int| 0 <= i < s.len() ==> is_plain_toml_char(#[trigger] s[i])
}

/// A string between double quotes.
pub open spec fn quoted(s: Seq<char>) -> Seq<char> {
    seq!['"'] + s + seq!['"']
}

/// Strings between double quotes, separated by `, `.
pub open spec fn quoted_items(ts: Seq<Seq<char>>) -> Seq<char>
    decreases ts.len(),
{
    if ts.len() == 0 {
        Seq::empty()
    } else if ts.len() == 1 {
        quoted(ts[0])
    } else {
        quoted_items(ts.drop_last()) + ", "@ + quoted(ts.last())
    }
}

/// Renders a string as a TOML value.
///
/// Relies on `toml_edit::Value::from(&str)` and its `Display`: a string with
/// no quote, backslash or control character (the empty one included) is
/// written as a basic string, between double quotes and unchanged.
#[verifier::external_body]
fn toml_string(s: &str) -> (r: String)
    ensures
        r@ == toml_string_of(s@),
        is_plain_toml_str(s@) ==> r@ == quoted(s@),
{
    toml_edit::Value::from(s).to_string()
}

/// The items of an inline TOML array of strings, separated by `, `.
pub open spec fn toml_items(ts: Seq<Seq<char>>) -> Seq<char>
    decreases ts.len(),
{
    if ts.len() == 0 {
        Seq::empty()
    } else if ts.len() == 1 {
        toml_string_of(ts[0])
    } else {
        toml_items(ts.drop_last()) + ", "@ + toml_string_of(ts.last())
    }
}

/// The views of a list of strings.
pub open spec fn views(v: Seq<String>) -> Seq<Seq<char>> {
    v.map_values(|s: String| s@)
}

/// Renders a list of strings as an inline TOML array.
///
/// Relies on `toml_edit::Array::from_iter` over `&String` items and the
/// `Display` of `toml_edit::Value::Array`: `[`, then each item as
/// `toml_edit` writes a string value, separated by `,` and the default
/// one-space prefix, then `]`.
#[verifier::external_body]
fn toml_string_array(items: &Vec<String>) -> (r: String)
    ensures
        r@ == "["@ + toml_items(views(items@)) + "]"@,
        (forall|i: int| 0 <= i < items@.len() ==> is_plain_toml_str(#[trigger] items@[i]@)) ==> r@
            == "["@ + quoted_items(views(items@)) + "]"@,
{
    toml_edit::Value::from(toml_edit::Array::from_iter(items.iter())).to_string()
}

/// The text of `question_attributes.toml`.
pub open spec fn question_attributes_text(d: QuestionDifficulty, topics: Seq<Seq<char>>) -> Seq<
    char,
> {
    "difficulty = "@ + toml_string_of(difficulty_name(d)) + "\ntopics = "@ + ("["@ + toml_items(
        topics,
    ) + "]"@) + "\n"@
}

/// The text of `question_attributes.toml` when the topics need no escapes.
pub open spec fn plain_question_attributes_text(
    d: QuestionDifficulty,
    topics: Seq<Seq<char>>,
) -> Seq<char> {
    "difficulty = "@ + quoted(difficulty_name(d)) + "\ntopics = "@ + ("["@ + quoted_items(topics)
        + "]"@) + "\n"@
}

/// Writes the question's difficulty and topics (in the given order) as TOML.
pub fn question_attributes_toml(difficulty: QuestionDifficulty, topics: &Vec<String>) -> (r:
    String)
    ensures
        r@ == question_attributes_text(difficulty, views(topics@)),
        (forall|i: int| 0 <= i < topics@.len() ==> is_plain_toml_str(#[trigger] topics@[i]@)) ==> r@
            == plain_question_attributes_text(difficulty, views(topics@)),
{
    let name = difficulty.name();
    proof {
        reveal_strlit("Easy");
        reveal_strlit("Medium");
        reveal_strlit("Hard");
        assert(is_plain_toml_str(name@));
    }
    let mut s = owned("difficulty = ");
    s.append(toml_string(name).as_str());
    s.append("\ntopics = ");
    s.append(toml_string_array(topics).as_str());
    s.append("\n");
    s
}

/// The record written for one attempt.
pub struct AttemptAttributes {
    pub success: bool,
    /// On a 7-point scale: 1 is trivial, 7 is as hard as it gets.
    pub perceived_trickiness: u8,
    pub attempt_start_time: Timestamp,
    pub attempt_end_time: Timestamp,
    pub reflections: String,
}

/// The text of a boolean TOML value.
pub open spec fn bool_text(b: bool) -> Seq<char> {
    if b {
        "true"@
    } else {
        "false"@
    }
}

/// The text of `attempt_attributes.toml`, given the TOML literal of the
/// reflections: each field on its own line, the trickiness followed by a
/// comment on its scale, and the reflections framed as a multi-line string
/// with a comment saying so.
pub open spec fn attempt_lines(
    success: bool,
    trickiness: int,
    start: Timestamp,
    end: Timestamp,
    reflections_literal: Seq<char>,
) -> Seq<char> {
    "success = "@ + bool_text(success) + "\nperceived_trickiness = "@ + seq![digit_char(trickiness)]
        + " # 7-point scale: 1 is brain-dead, 7 is diabolical\nattempt_start_time = "@
        + datetime_text(start) + "\nattempt_end_time = "@ + datetime_text(end)
        + "\nreflections = \"\""@ + reflections_literal + "\"\" # This is multiline!\n"@
}

/// The text of `attempt_attributes.toml` for a record.
pub open spec fn attempt_attributes_text(a: AttemptAttributes) -> Seq<char> {
    attempt_lines(
        a.success,
        a.perceived_trickiness as int,
        a.attempt_start_time,
        a.attempt_end_time,
        toml_string_of(a.reflections@),
    )
}

impl AttemptAttributes {
    /// The trickiness is on its scale and both times are valid.
    pub open spec fn wf(&self) -> bool {
        &&& 1 <= self.perceived_trickiness <= 7
        &&& self.attempt_start_time.wf()
        &&& self.attempt_end_time.wf()
    }

    /// A fresh attempt started and stamped at `now`: not yet a success,
    /// trickiness 1, no reflections, both times equal to `now`.
    pub fn new_attempt(now: Timestamp) -> (r: AttemptAttributes)
        requires
            now.wf(),
        ensures
            r.wf(),
            !r.success,
            r.perceived_trickiness == 1,
            r.attempt_start_time == now,
            r.attempt_end_time == now,
            r.reflections@.len() == 0,
    {
        AttemptAttributes {
            success: false,
            perceived_trickiness: 1,
            attempt_start_time: now,
            attempt_end_time: now,
            reflections: String::new(),
        }
    }

    /// Writes the record as TOML.
    pub fn to_toml(&self) -> (r: String)
        requires
            self.wf(),
        ensures
            r@ == attempt_attributes_text(*self),
            self.reflections@.len() == 0 ==> r@ == attempt_lines(
                self.success,
                self.perceived_trickiness as int,
                self.attempt_start_time,
                self.attempt_end_time,
                seq!['"', '"'],
            ),
    {
        let mut s = owned("success = ");
        s.append(if self.success { "true" } else { "false" });
        s.append("\nperceived_trickiness = ");
        push_char(&mut s, digit(self.perceived_trickiness as u32));
        s.append(" # 7-point scale: 1 is brain-dead, 7 is diabolical\nattempt_start_time = ");
        s.append(datetime_string(&self.attempt_start_time).as_str());
        s.append("\nattempt_end_time = ");
        s.append(datetime_string(&self.attempt_end_time).as_str());
        s.append("\nreflections = \"\"");
        let literal = toml_string(self.reflections.as_str());
        assert(self.reflections@.len() == 0 ==> literal@ == seq!['"', '"']);
        s.append(literal.as_str());
        s.append("\"\" # This is multiline!\n");
        s
    }
}

proof fn lemma_digit_char_injective(x: nat, y: nat)
    requires
        x < 10,
        y < 10,
        digit_char(x as int) == digit_char(y as int),
    ensures
        x == y,
{
}

proof fn lemma_padded_step(a: nat, b: nat, w: nat)
    requires
        w > 0,
        padded(a, w) == padded(b, w),
    ensures
        a % 10 == b % 10,
        padded(a / 10, (w - 1) as nat) == padded(b / 10, (w - 1) as nat),
{
    let pa = padded(a, w);
    let pb = padded(b, w);
    assert(pa == padded(a / 10, (w - 1) as nat).push(digit_char((a % 10) as int)));
    assert(pb == padded(b / 10, (w - 1) as nat).push(digit_char((b % 10) as int)));
    assert(pa.last() == digit_char((a % 10) as int));
    assert(pb.last() == digit_char((b % 10) as int));
    assert(pa.drop_last() == padded(a / 10, (w - 1) as nat));
    assert(pb.drop_last() == padded(b / 10, (w - 1) as nat));
    lemma_digit_char_injective(a % 10, b % 10);
}

proof fn lemma_padded2_injective(a: nat, b: nat)
    requires
        a < 100,
        b < 100,
        padded(a, 2) == padded(b, 2),
    ensures
        a == b,
{
    lemma_padded_step(a, b, 2);
    lemma_padded_step(a / 10, b / 10, 1);
}

proof fn lemma_padded4_injective(a: nat, b: nat)
    requires
        a < 10000,
        b < 10000,
        padded(a, 4) == padded(b, 4),
    ensures
        a == b,
{
    lemma_padded_step(a, b, 4);
    lemma_padded_step(a / 10, b / 10, 3);
    lemma_padded_step(a / 10 / 10, b / 10 / 10, 2);
    lemma_padded_step(a / 10 / 10 / 10, b / 10 / 10 / 10, 1);
}

/// Two attempts whose local times differ by at least a second get different
/// folder names, so a later run never lands in an earlier attempt's folder.
pub proof fn lemma_attempt_folders_distinct(a: Timestamp, b: Timestamp)
    requires
        a.wf(),
        b.wf(),
        (a.year, a.month, a.day, a.hour, a.minute, a.second) != (
            b.year,
            b.month,
            b.day,
            b.hour,
            b.minute,
            b.second,
        ),
    ensures
        attempt_folder_text(a) != attempt_folder_text(b),
{
    reveal_with_fuel(padded, 5);
    let ta = attempt_folder_text(a);
    let tb = attempt_folder_text(b);
    if ta == tb {
        assert(ta.subrange(0, 4) == padded(a.year as nat, 4));
        assert(tb.subrange(0, 4) == padded(b.year as nat, 4));
        assert(ta.subrange(4, 6) == padded(a.month as nat, 2));
        assert(tb.subrange(4, 6) == padded(b.month as nat, 2));
        assert(ta.subrange(6, 8) == padded(a.day as nat, 2));
        assert(tb.subrange(6, 8) == padded(b.day as nat, 2));
        assert(ta.subrange(9, 11) == padded(a.hour as nat, 2));
        assert(tb.subrange(9, 11) == padded(b.hour as nat, 2));
        assert(ta.subrange(11, 13) == padded(a.minute as nat, 2));
        assert(tb.subrange(11, 13) == padded(b.minute as nat, 2));
        assert(ta.subrange(13, 15) == padded(a.second as nat, 2));
        assert(tb.subrange(13, 15) == padded(b.second as nat, 2));
        lemma_padded4_injective(a.year as nat, b.year as nat);
        lemma_padded2_injective(a.month as nat, b.month as nat);
        lemma_padded2_injective(a.day as nat, b.day as nat);
        lemma_padded2_injective(a.hour as nat, b.hour as nat);
        lemma_padded2_injective(a.minute as nat, b.minute as nat);
        lemma_padded2_injective(a.second as nat, b.second as nat);
    }
}

} // verus!
