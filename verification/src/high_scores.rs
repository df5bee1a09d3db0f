use vstd::prelude::*;
use vstd::string::StrSliceExecFns;
use vstd::string::StringExecFns;
use core::num::ParseIntError;

verus! {

/// The character that ends a line.
pub const LINE_FEED: char = '\n';

/// Whether a character belongs to a line: any but the line feed does.
pub fn within_line(c: char) -> (b: bool)
    ensures
        b == (c != LINE_FEED),
{
    c != LINE_FEED
}

/// The least number of characters of a score's text.
pub const SCORE_WIDTH: usize = 6;

/// The number of scores that the table keeps.
pub const TABLE_SIZE: usize = 10;

/// `std::num::ParseIntError`: why a text is not a number.
#[verifier::external_type_specification]
#[verifier::external_body]
pub struct ExParseIntError(ParseIntError);

/// What went wrong while a table of scores was read.
pub enum Error {
    /// A line does not hold a score.
    Score(ParseIntError),
}

/// The value of a decimal digit, or `None` for any other character.
pub open spec fn digit_value(c: char) -> Option<nat> {
    if '0' as u32 <= c as u32 && c as u32 <= '9' as u32 {
        Some((c as u32 - '0' as u32) as nat)
    } else {
        None
    }
}

/// The number that a text of decimal digits stands for, or `None` where the
/// text is empty or holds anything but digits.
pub open spec fn decimal_value(text: Seq<char>) -> Option<nat>
    decreases text.len(),
{
    if text.len() == 0 {
        None
    } else {
        match digit_value(text.last()) {
            None => None,
            Some(units) => if text.len() == 1 {
                Some(units)
            } else {
                match decimal_value(text.drop_last()) {
                    None => None,
                    Some(tens) => Some(10 * tens + units),
                }
            },
        }
    }
}

/// The score that a line of text holds: the text is a plus sign, which may be
/// left out, and then decimal digits and nothing else, and the number fits the
/// score. `None` for any other text.
pub open spec fn parsed_score(text: Seq<char>) -> Option<u32> {
    let digits = if text.len() > 0 && text[0] == '+' {
        text.skip(1)
    } else {
        text
    };
    match decimal_value(digits) {
        Some(value) => if value <= u32::MAX {
            Some(value as u32)
        } else {
            None
        },
        None => None,
    }
}

/// The character of a decimal digit.
pub open spec fn digit(d: int) -> char {
    if d == 0 {
        '0'
    } else if d == 1 {
        '1'
    } else if d == 2 {
        '2'
    } else if d == 3 {
        '3'
    } else if d == 4 {
        '4'
    } else if d == 5 {
        '5'
    } else if d == 6 {
        '6'
    } else if d == 7 {
        '7'
    } else if d == 8 {
        '8'
    } else {
        '9'
    }
}

/// The decimal digits of a number, without leading zeros.
pub open spec fn decimal(n: nat) -> Seq<char>
    decreases n,
{
    if n < 10 {
        seq![digit(n as int)]
    } else {
        decimal(n / 10).push(digit((n % 10) as int))
    }
}

/// A text with zeros put before it until it is `width` characters long.
pub open spec fn zero_padded(text: Seq<char>, width: nat) -> Seq<char>
    decreases width - text.len(),
{
    if text.len() >= width {
        text
    } else {
        zero_padded(seq!['0'] + text, width)
    }
}

/// The text of a score: its decimal digits, with leading zeros up to the
/// width of the table's column.
pub open spec fn score_text(score: u32) -> Seq<char> {
    zero_padded(decimal(score as nat), SCORE_WIDTH as nat)
}

/// Reads a score by `str::parse::<u32>`. The contract claims what std
/// documents of it: a text is read if it is an optional plus sign followed by
/// decimal digits only, at least one, whose number fits a `u32`; the number is
/// the score. Every other text is refused.
#[verifier::external_body]
fn parse_score(text: &str) -> (r: Result<u32, ParseIntError>)
    ensures
        match r {
            Ok(score) => parsed_score(text@) == Some(score),
            Err(_) => parsed_score(text@) is None,
        },
{
    text.parse::<u32>()
}

/// Writes a score by `format!` with zero padding to the width of a score's
/// text. The contract claims what the format stands for: the score in decimal
/// digits, padded with zeros to that width, and longer where the score has
/// more digits.
#[verifier::external_body]
fn format_score(score: u32) -> (text: String)
    ensures
        text@ == score_text(score),
{
    format!("{:0width$}", score, width = SCORE_WIDTH)
}

/// Reads a text from left to right.
pub struct Reader<'a> {
    pub input: &'a str,
    /// The number of characters that have been read.
    pub position: usize,
}

/// The index of the first line feed in `text` from `from` on, or the length
/// of `text` where there is none.
pub open spec fn line_end(text: Seq<char>, from: int) -> int
    decreases text.len() - from,
{
    if from < 0 || from >= text.len() {
        text.len() as int
    } else if text[from] == '\n' {
        from
    } else {
        line_end(text, from + 1)
    }
}

/// The first line of `text`, without its line feed.
pub open spec fn first_line(text: Seq<char>) -> Seq<char> {
    text.take(line_end(text, 0))
}

/// What follows the first line of `text` and its line feed.
pub open spec fn after_first_line(text: Seq<char>) -> Seq<char> {
    if line_end(text, 0) < text.len() {
        text.skip(line_end(text, 0) + 1)
    } else {
        Seq::empty()
    }
}

/// The first line ends within the text, no earlier than it starts.
pub proof fn lemma_line_end_bounds(text: Seq<char>, from: int)
    requires
        0 <= from <= text.len(),
    ensures
        from <= line_end(text, from) <= text.len(),
    decreases text.len() - from,
{
    if from < text.len() && text[from] != '\n' {
        lemma_line_end_bounds(text, from + 1);
    }
}

/// A stretch without line feed that ends at a line feed, or at the end of the
/// text, is the first line.
pub proof fn lemma_line_end(text: Seq<char>, from: int, end: int)
    requires
        0 <= from <= end <= text.len(),
        forall|i: int| from <= i < end ==> text[i] != '\n',
        end == text.len() || text[end] == '\n',
    ensures
        line_end(text, from) == end,
    decreases end - from,
{
    if from < end {
        lemma_line_end(text, from + 1, end);
    }
}

impl<'a> Reader<'a> {
    /// No more characters have been read than the text holds.
    pub open spec fn wf(self) -> bool {
        self.position <= self.input@.len()
    }

    /// What is left to read.
    pub open spec fn remaining(self) -> Seq<char> {
        self.input@.skip(self.position as int)
    }

    /// A reader at the start of `input`.
    pub fn new(input: &'a str) -> (r: Self)
        ensures
            r.wf(),
            r.input == input,
            r.position == 0,
            r.remaining() == input@,
    {
        Reader { input, position: 0 }
    }

    /// Reads characters for as long as they satisfy the test, and hands them
    /// out. The first character that fails the test is read too, and dropped.
    pub fn till<F: Fn(char) -> bool>(&mut self, satisfy: F) -> (output: String)
        requires
            old(self).wf(),
            forall|c: char| #[trigger] satisfy.requires((c,)),
        ensures
            final(self).wf(),
            final(self).input == old(self).input,
            output@.len() <= old(self).remaining().len(),
            output@ == old(self).remaining().take(output@.len() as int),
            forall|i: int| 0 <= i < output@.len() ==> satisfy.ensures((#[trigger] output@[i],), true),
            output@.len() < old(self).remaining().len() ==> satisfy.ensures(
                (old(self).remaining()[output@.len() as int],),
                false,
            ) && final(self).position == old(self).position + output@.len() + 1,
            output@.len() == old(self).remaining().len() ==> final(self).position
                == old(self).input@.len(),
    {
        let length: usize = self.input.unicode_len();
        let start: usize = self.position;
        let mut end: usize = start;
        let mut stopped: bool = false;
        while end < length && !stopped
            invariant
                start <= end <= length,
                length == self.input@.len(),
                *self == *old(self),
                start == self.position,
                forall|c: char| #[trigger] satisfy.requires((c,)),
                forall|i: int| start <= i < end - (if stopped { 1int } else { 0int }) ==> satisfy.ensures(
                    (#[trigger] self.input@[i],),
                    true,
                ),
                stopped ==> start < end && satisfy.ensures((self.input@[end - 1],), false),
            decreases length - end + (if stopped { 0int } else { 1int }),
        {
            let c = self.input.get_char(end);
            if !satisfy(c) {
                stopped = true;
            }
            end += 1;
        }
        let taken: usize = if stopped { end - 1 } else { end };
        let output = self.input.substring_char(start, taken).to_owned();
        self.position = end;
        proof {
            assert(output@ =~= old(self).remaining().take(output@.len() as int));
        }
        output
    }

    /// Whether the whole text has been read.
    pub fn ended(&mut self) -> (e: bool)
        requires
            old(self).wf(),
        ensures
            *final(self) == *old(self),
            e == (old(self).remaining().len() == 0),
    {
        self.position >= self.input.unicode_len()
    }
}

/// The scores that the lines of `text` hold, in order, or `None` where a line
/// holds none. A line feed ends a line; the text after the last line feed is
/// a line if it is not empty.
pub open spec fn parse_all(text: Seq<char>) -> Option<Seq<u32>>
    decreases text.len(),
    via parse_all_decreases
{
    if text.len() == 0 {
        Some(Seq::empty())
    } else {
        match parsed_score(first_line(text)) {
            None => None,
            Some(score) => match parse_all(after_first_line(text)) {
                None => None,
                Some(rest) => Some(seq![score] + rest),
            },
        }
    }
}

#[via_fn]
proof fn parse_all_decreases(text: Seq<char>) {
    lemma_line_end_bounds(text, 0);
}

/// Whether the scores fall from first to last.
pub open spec fn descending(scores: Seq<u32>) -> bool {
    forall|i: int, j: int| 0 <= i <= j < scores.len() ==> scores[i] >= scores[j]
}

/// The place of a new score in a falling table: the index, from `from` on, of
/// the first score below it, or the table's length.
pub open spec fn rank(scores: Seq<u32>, new: u32, from: int) -> int
    decreases scores.len() - from,
{
    if from < 0 || from >= scores.len() {
        scores.len() as int
    } else if scores[from] < new {
        from
    } else {
        rank(scores, new, from + 1)
    }
}

/// The table with a new score put in at its place, behind the scores equal
/// to it, and cut down to the ten best.
pub open spec fn insert_top(scores: Seq<u32>, new: u32) -> Seq<u32> {
    let all = scores.insert(rank(scores, new, 0), new);
    if all.len() > TABLE_SIZE {
        all.take(TABLE_SIZE as int)
    } else {
        all
    }
}

/// The ten best of the first `n` scores, best first.
pub open spec fn ranked(scores: Seq<u32>, n: int) -> Seq<u32>
    decreases n,
{
    if n <= 0 || n > scores.len() {
        Seq::empty()
    } else {
        insert_top(ranked(scores, n - 1), scores[n - 1])
    }
}

/// The scores before the place of a new score are no lower than it, and the
/// score at its place is lower.
pub proof fn lemma_rank(scores: Seq<u32>, new: u32, from: int)
    requires
        0 <= from <= scores.len(),
    ensures
        from <= rank(scores, new, from) <= scores.len(),
        forall|i: int| from <= i < rank(scores, new, from) ==> scores[i] >= new,
        rank(scores, new, from) < scores.len() ==> scores[rank(scores, new, from)] < new,
    decreases scores.len() - from,
{
    if from < scores.len() && scores[from] >= new {
        lemma_rank(scores, new, from + 1);
    }
}

/// A falling table of ten scores at most stays one when a score is put in.
pub proof fn lemma_insert_top_keeps_order(scores: Seq<u32>, new: u32)
    requires
        descending(scores),
        scores.len() <= TABLE_SIZE,
    ensures
        descending(insert_top(scores, new)),
        insert_top(scores, new).len() <= TABLE_SIZE,
        insert_top(scores, new).len() == if scores.len() < TABLE_SIZE {
            scores.len() + 1
        } else {
            scores.len()
        },
{
    lemma_rank(scores, new, 0);
    let k = rank(scores, new, 0);
    let all = scores.insert(k, new);
    assert forall|i: int, j: int| 0 <= i <= j < all.len() implies all[i] >= all[j] by {
        if i < k {
            assert(all[i] == scores[i]);
        } else if i > k {
            assert(all[i] == scores[i - 1]);
        }
        if j < k {
            assert(all[j] == scores[j]);
        } else if j > k {
            assert(all[j] == scores[j - 1]);
        }
    }
}

/// The table of the ten best scores, best first.
pub struct HighScores {
    pub scores: Vec<u32>,
}

impl HighScores {
    /// The table holds ten scores at most, and they fall from first to last.
    pub open spec fn wf(self) -> bool {
        &&& self.scores.len() <= TABLE_SIZE
        &&& descending(self.scores@)
    }

    /// Tests whether the table is well formed.
    pub fn is_wf(&self) -> (ok: bool)
        ensures
            ok == self.wf(),
    {
        if self.scores.len() > TABLE_SIZE {
            return false;
        }
        let mut i: usize = 1;
        while i < self.scores.len()
            invariant
                1 <= i,
                forall|a: int, b: int| 0 <= a <= b < i && b < self.scores.len() ==> self.scores[a]
                    >= self.scores[b],
            decreases self.scores.len() - i,
        {
            if self.scores[i - 1] < self.scores[i] {
                return false;
            }
            i += 1;
        }
        true
    }

    /// Puts a score into a table at its place and drops the eleventh.
    fn insert(&mut self, new: u32)
        requires
            old(self).wf(),
        ensures
            final(self).wf(),
            final(self).scores@ == insert_top(old(self).scores@, new),
    {
        proof {
            lemma_rank(self.scores@, new, 0);
            lemma_insert_top_keeps_order(self.scores@, new);
        }
        let mut k: usize = 0;
        while k < self.scores.len() && self.scores[k] >= new
            invariant
                0 <= k <= self.scores.len(),
                *self == *old(self),
                rank(self.scores@, new, 0) == rank(self.scores@, new, k as int),
            decreases self.scores.len() - k,
        {
            k += 1;
        }
        self.scores.insert(k, new);
        if self.scores.len() > TABLE_SIZE {
            self.scores.truncate(TABLE_SIZE);
        }
    }

    /// The table that a text holds, one score on each line; a text that
    /// cannot be read gives the empty table.
    pub fn load(input: &str) -> (table: Self)
        ensures
            table.wf(),
            table.scores@ == match parse_all(input@) {
                Some(scores) => ranked(scores, scores.len() as int),
                None => Seq::empty(),
            },
    {
        match Self::read(input) {
            Ok(table) => table,
            Err(_) => HighScores { scores: Vec::new() },
        }
    }

    /// Puts the score of a round into the table: it takes its place behind
    /// the scores that are no lower, and the table keeps its ten best.
    pub fn save(&mut self, new: u32)
        requires
            old(self).wf(),
        ensures
            final(self).wf(),
            final(self).scores@ == insert_top(old(self).scores@, new),
    {
        self.insert(new);
    }

    /// Reads a table from a text that holds one score on each line. The
    /// table holds the ten best of them, best first. A line that holds no
    /// score fails the whole text.
    pub fn read(input: &str) -> (r: Result<Self, Error>)
        ensures
            match r {
                Ok(table) => {
                    &&& table.wf()
                    &&& parse_all(input@) is Some
                    &&& table.scores@ == ranked(
                        parse_all(input@)->0,
                        parse_all(input@)->0.len() as int,
                    )
                },
                Err(_) => parse_all(input@) is None,
            },
    {
        let mut reader = Reader::new(input);
        let mut scores: Vec<u32> = Vec::new();
        while !reader.ended()
            invariant
                reader.wf(),
                reader.input == input,
                parse_all(input@) == match parse_all(reader.remaining()) {
                    Some(rest) => Some(scores@ + rest),
                    None => None,
                },
            decreases reader.remaining().len(),
        {
            let ghost before = reader.remaining();
            let line = reader.till(within_line);
            proof {
                assert forall|i: int| 0 <= i < line@.len() implies before[i] != '\n' by {
                    assert(line@[i] == before[i]);
                    assert(within_line.ensures((line@[i],), true));
                }
                lemma_line_end(before, 0, line@.len() as int);
                assert(line@ == first_line(before));
                assert(reader.remaining() =~= after_first_line(before));
            }
            match parse_score(line.as_str()) {
                Ok(score) => {
                    proof {
                        let rest = parse_all(reader.remaining());
                        if rest is Some {
                            assert(scores@ + (seq![score] + rest->0) =~= scores@.push(score)
                                + rest->0);
                        }
                    }
                    scores.push(score);
                },
                Err(e) => {
                    return Err(Error::Score(e));
                },
            }
        }
        proof {
            let nothing: Seq<u32> = Seq::empty();
            assert(scores@ + nothing =~= scores@);
        }
        let mut table = HighScores { scores };
        table.top10_ordered();
        Ok(table)
    }

    /// The text of a table: the first `n` scores, each on a line of its own.
    pub open spec fn written(scores: Seq<u32>, n: int) -> Seq<char>
        decreases n,
    {
        if n <= 0 || n > scores.len() {
            Seq::empty()
        } else {
            Self::written(scores, n - 1) + score_text(scores[n - 1]) + seq!['\n']
        }
    }

    /// Writes the table as a text with one score on each line.
    pub fn write(&self) -> (output: String)
        ensures
            output@ == Self::written(self.scores@, self.scores.len() as int),
    {
        let mut output = String::new();
        let mut i: usize = 0;
        while i < self.scores.len()
            invariant
                0 <= i <= self.scores.len(),
                output@ == Self::written(self.scores@, i as int),
            decreases self.scores.len() - i,
        {
            let text = format_score(self.scores[i]);
            output.append(text.as_str());
            proof {
                reveal_strlit("\n");
            }
            output.append("\n");
            assert("\n"@ =~= seq!['\n']);
            i += 1;
        }
        output
    }

    /// Puts any scores in order and keeps the ten best of them, best first.
    pub fn top10_ordered(&mut self)
        ensures
            final(self).wf(),
            final(self).scores@ == ranked(old(self).scores@, old(self).scores.len() as int),
    {
        let mut table = HighScores { scores: Vec::new() };
        let mut i: usize = 0;
        while i < self.scores.len()
            invariant
                0 <= i <= self.scores.len(),
                *self == *old(self),
                table.wf(),
                table.scores@ == ranked(self.scores@, i as int),
            decreases self.scores.len() - i,
        {
            table.insert(self.scores[i]);
            i += 1;
        }
        self.scores = table.scores;
    }
}

} // verus!
