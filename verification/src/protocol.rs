//! The line-oriented command protocol: tokens, the command table, arguments
//! and replies.

use vstd::prelude::*;
use vstd::slice::{slice_subrange, slice_to_vec};
use crate::serial::NEWLINE;
use vstd::string::StringSliceAdditionalSpecFns;
use vstd::utf8::encode_utf8;

verus! {

/// The largest number of tokens taken from one line; what follows is dropped.
pub const MAX_TOKENS: usize = 10;

/// Whether a byte separates tokens: a space, or one of the control characters
/// from tab to carriage return.
pub open spec fn is_space(byte: u8) -> bool {
    byte == 32 || (9 <= byte && byte <= 13)
}

/// The first offset at or after `from` that holds no separator, or the line's
/// length.
pub open spec fn skip_spaces(line: Seq<u8>, from: int) -> int
    decreases line.len() - from,
{
    if 0 <= from < line.len() && is_space(line[from]) {
        skip_spaces(line, from + 1)
    } else {
        from
    }
}

/// The first offset at or after `from` that holds a separator, or the line's
/// length.
pub open spec fn skip_word(line: Seq<u8>, from: int) -> int
    decreases line.len() - from,
{
    if 0 <= from < line.len() && !is_space(line[from]) {
        skip_word(line, from + 1)
    } else {
        from
    }
}

/// The first `limit` maximal runs of bytes without a separator at or after
/// `from`, each as the offsets of its first byte and just past its last.
pub open spec fn spans_from(line: Seq<u8>, from: int, limit: nat) -> Seq<(int, int)>
    decreases limit,
{
    let start = skip_spaces(line, from);
    if limit == 0 || start >= line.len() {
        Seq::empty()
    } else {
        let end = skip_word(line, start);
        seq![(start, end)] + spans_from(line, end, (limit - 1) as nat)
    }
}

/// The spans of the tokens of a line.
pub open spec fn token_spans(line: Seq<u8>) -> Seq<(int, int)> {
    spans_from(line, 0, MAX_TOKENS as nat)
}

/// The tokens of a line: its first `MAX_TOKENS` runs of bytes between
/// separators.
pub open spec fn tokens(line: Seq<u8>) -> Seq<Seq<u8>> {
    token_spans(line).map_values(|span: (int, int)| line.subrange(span.0, span.1))
}

/// The length of a line without the separators at its end.
pub open spec fn trimmed_len(line: Seq<u8>) -> int
    decreases line.len(),
{
    if line.len() > 0 && is_space(line.last()) {
        trimmed_len(line.drop_last())
    } else {
        line.len() as int
    }
}

/// A line without the separators at its end.
pub open spec fn trimmed(line: Seq<u8>) -> Seq<u8> {
    line.subrange(0, trimmed_len(line))
}

/// Whether `span` is a word of `line`: a run of bytes without a separator
/// that cannot be made longer at either end.
pub open spec fn is_word(line: Seq<u8>, span: (int, int)) -> bool {
    &&& 0 <= span.0 < span.1 <= line.len()
    &&& forall|k: int| span.0 <= k < span.1 ==> !is_space(#[trigger] line[k])
    &&& (span.0 == 0 || is_space(line[span.0 - 1]))
    &&& (span.1 == line.len() || is_space(line[span.1]))
}

/// Whether the offset `k` lies in one of `spans`.
pub open spec fn covered(spans: Seq<(int, int)>, k: int) -> bool {
    exists|i: int| 0 <= i < spans.len() && (#[trigger] spans[i]).0 <= k < spans[i].1
}

/// Whether `spans` holds as many spans as the limit allows, and `k` lies
/// behind the last of them.
pub open spec fn beyond(spans: Seq<(int, int)>, limit: nat, k: int) -> bool {
    spans.len() == limit && (limit == 0 || spans[limit - 1].1 <= k)
}

proof fn lemma_skip_spaces(line: Seq<u8>, from: int)
    requires
        0 <= from <= line.len(),
    ensures
        from <= skip_spaces(line, from) <= line.len(),
        forall|k: int| from <= k < skip_spaces(line, from) ==> is_space(#[trigger] line[k]),
        skip_spaces(line, from) < line.len() ==> !is_space(line[skip_spaces(line, from)]),
    decreases line.len() - from,
{
    if from < line.len() && is_space(line[from]) {
        lemma_skip_spaces(line, from + 1);
    }
}

proof fn lemma_skip_word(line: Seq<u8>, from: int)
    requires
        0 <= from <= line.len(),
    ensures
        from <= skip_word(line, from) <= line.len(),
        forall|k: int| from <= k < skip_word(line, from) ==> !is_space(#[trigger] line[k]),
        skip_word(line, from) < line.len() ==> is_space(line[skip_word(line, from)]),
    decreases line.len() - from,
{
    if from < line.len() && !is_space(line[from]) {
        lemma_skip_word(line, from + 1);
    }
}

/// The spans that `spans_from` returns are words of the line, in order and
/// apart; and every byte at or after `from` that is no separator lies in one
/// of them, or behind the last where the limit cut the line short.
pub proof fn lemma_spans_are_words(line: Seq<u8>, from: int, limit: nat)
    requires
        0 <= from <= line.len(),
        from == 0 || from == line.len() || is_space(line[from - 1]) || is_space(line[from]),
    ensures
        ({
            let spans = spans_from(line, from, limit);
            &&& spans.len() <= limit
            &&& forall|i: int|
                0 <= i < spans.len() ==> is_word(line, #[trigger] spans[i]) && from <= spans[i].0
            &&& forall|i: int, j: int|
                0 <= i < j < spans.len() ==> (#[trigger] spans[i]).1 < (#[trigger] spans[j]).0
            &&& forall|k: int|
                from <= k < line.len() && !is_space(#[trigger] line[k]) ==> covered(spans, k)
                    || beyond(spans, limit, k)
        }),
    decreases limit,
{
    let spans = spans_from(line, from, limit);
    let start = skip_spaces(line, from);
    lemma_skip_spaces(line, from);
    if limit == 0 || start >= line.len() {
        assert(spans =~= Seq::<(int, int)>::empty());
    } else {
        let end = skip_word(line, start);
        lemma_skip_word(line, start);
        assert(skip_word(line, start) == skip_word(line, start + 1));
        lemma_skip_word(line, start + 1);
        let rest = spans_from(line, end, (limit - 1) as nat);
        lemma_spans_are_words(line, end, (limit - 1) as nat);
        assert(spans == seq![(start, end)] + rest);
        assert(spans[0] == (start, end));
        assert(forall|i: int| 1 <= i < spans.len() ==> spans[i] == rest[i - 1]);
        assert(is_word(line, (start, end)));
        assert forall|i: int, j: int| 0 <= i < j < spans.len() implies (#[trigger] spans[i]).1 < (
        #[trigger] spans[j]).0 by {
            if i == 0 {
                assert(is_word(line, rest[j - 1]));
            } else {
                assert(rest[i - 1].1 < rest[j - 1].0);
            }
        }
        assert forall|k: int|
            from <= k < line.len() && !is_space(#[trigger] line[k]) implies covered(spans, k)
            || beyond(spans, limit, k) by {
            if k < end {
                assert(start <= k);
                assert(spans[0].0 <= k < spans[0].1);
            } else if covered(rest, k) {
                let i = choose|i: int|
                    0 <= i < rest.len() && (#[trigger] rest[i]).0 <= k < rest[i].1;
                assert(spans[i + 1] == rest[i]);
                assert(spans[i + 1].0 <= k < spans[i + 1].1);
            } else {
                assert(beyond(rest, (limit - 1) as nat, k));
                if limit > 1 {
                    assert(spans[limit - 1] == rest[limit - 2]);
                }
            }
        }
    }
}

/// The tokens of a line are its words, in order: every token is a run of
/// bytes without a separator that cannot be made longer, and every byte of the
/// line that is no separator lies in a token, or behind the last token where
/// the line holds more than `MAX_TOKENS` words.
pub proof fn lemma_tokens_are_words(line: Seq<u8>)
    ensures
        ({
            let spans = token_spans(line);
            &&& spans.len() <= MAX_TOKENS
            &&& forall|i: int| 0 <= i < spans.len() ==> is_word(line, #[trigger] spans[i])
            &&& forall|i: int, j: int|
                0 <= i < j < spans.len() ==> (#[trigger] spans[i]).1 < (#[trigger] spans[j]).0
            &&& forall|k: int|
                0 <= k < line.len() && !is_space(#[trigger] line[k]) ==> covered(spans, k)
                    || beyond(spans, MAX_TOKENS as nat, k)
        }),
{
    lemma_spans_are_words(line, 0, MAX_TOKENS as nat);
}

/// Tells whether a byte separates tokens.
pub fn is_space_byte(byte: u8) -> (space: bool)
    ensures
        space == is_space(byte),
{
    byte == 32 || (9 <= byte && byte <= 13)
}

fn scan_spaces(line: &[u8], from: usize) -> (at: usize)
    requires
        from <= line@.len(),
    ensures
        at == skip_spaces(line@, from as int),
        from <= at <= line@.len(),
        at < line@.len() ==> !is_space(line@[at as int]),
{
    let mut i: usize = from;
    while i < line.len() && is_space_byte(line[i])
        invariant
            from <= i <= line@.len(),
            skip_spaces(line@, i as int) == skip_spaces(line@, from as int),
        decreases line@.len() - i,
    {
        i = i + 1;
    }
    i
}

fn scan_word(line: &[u8], from: usize) -> (at: usize)
    requires
        from <= line@.len(),
    ensures
        at == skip_word(line@, from as int),
        from <= at <= line@.len(),
        from < line@.len() && !is_space(line@[from as int]) ==> from < at,
{
    let mut i: usize = from;
    while i < line.len() && !is_space_byte(line[i])
        invariant
            from <= i <= line@.len(),
            skip_word(line@, i as int) == skip_word(line@, from as int),
        decreases line@.len() - i,
    {
        i = i + 1;
    }
    i
}

/// Whether `spans` holds the offsets `expected`, in order.
pub open spec fn spans_match(spans: Seq<(usize, usize)>, expected: Seq<(int, int)>) -> bool {
    &&& spans.len() == expected.len()
    &&& forall|i: int|
        0 <= i < spans.len() ==> (#[trigger] spans[i]).0 == expected[i].0 && spans[i].1
            == expected[i].1
}

/// Splits a line into tokens at runs of separators and returns the span of
/// each. At most `MAX_TOKENS` tokens are taken; the rest of the line is
/// ignored.
pub fn tokenize(line: &[u8]) -> (spans: Vec<(usize, usize)>)
    ensures
        spans_match(spans@, token_spans(line@)),
        spans@.len() <= MAX_TOKENS,
        forall|i: int|
            0 <= i < spans@.len() ==> (#[trigger] spans@[i]).0 < spans@[i].1 && spans@[i].1
                <= line@.len(),
{
    let mut spans: Vec<(usize, usize)> = Vec::new();
    let mut pos: usize = 0;
    let ghost mut done: Seq<(int, int)> = Seq::empty();
    while spans.len() < MAX_TOKENS
        invariant
            pos <= line@.len(),
            spans@.len() <= MAX_TOKENS,
            spans_match(spans@, done),
            token_spans(line@) == done + spans_from(
                line@,
                pos as int,
                (MAX_TOKENS - spans@.len()) as nat,
            ),
            forall|i: int|
                0 <= i < spans@.len() ==> (#[trigger] spans@[i]).0 < spans@[i].1 && spans@[i].1
                    <= line@.len(),
        decreases MAX_TOKENS - spans@.len(),
    {
        let start: usize = scan_spaces(line, pos);
        if start >= line.len() {
            proof {
                assert(spans_from(line@, pos as int, (MAX_TOKENS - spans@.len()) as nat)
                    =~= Seq::<(int, int)>::empty());
                assert(token_spans(line@) =~= done);
            }
            return spans;
        }
        let end: usize = scan_word(line, start);
        proof {
            assert(!is_space(line@[start as int]));
            assert(skip_word(line@, start as int) == skip_word(line@, start as int + 1));
            let rest = spans_from(line@, end as int, (MAX_TOKENS - spans@.len() - 1) as nat);
            assert(spans_from(line@, pos as int, (MAX_TOKENS - spans@.len()) as nat) == seq![
                (start as int, end as int),
            ] + rest);
            assert(done + (seq![(start as int, end as int)] + rest) =~= done.push(
                (start as int, end as int),
            ) + rest);
            done = done.push((start as int, end as int));
        }
        spans.push((start, end));
        pos = end;
    }
    proof {
        assert(spans_from(line@, pos as int, 0) =~= Seq::<(int, int)>::empty());
        assert(token_spans(line@) =~= done);
    }
    spans
}

/// Cuts the separators off the end of a line.
pub fn trim_end(line: &[u8]) -> (cut: &[u8])
    ensures
        cut@ == trimmed(line@),
{
    let mut end: usize = line.len();
    assert(line@.subrange(0, end as int) =~= line@);
    while end > 0 && is_space_byte(line[end - 1])
        invariant
            end <= line@.len(),
            trimmed_len(line@.subrange(0, end as int)) == trimmed_len(line@),
        decreases end,
    {
        proof {
            let head = line@.subrange(0, end as int);
            assert(head.last() == line@[end - 1]);
            assert(head.drop_last() =~= line@.subrange(0, end - 1));
        }
        end = end - 1;
    }
    proof {
        let head = line@.subrange(0, end as int);
        if end > 0 {
            assert(head.last() == line@[end - 1]);
        }
        assert(trimmed_len(head) == end);
    }
    slice_subrange(line, 0, end)
}

/// The commands of the protocol, in the order of the command table.
#[derive(Copy, Clone, Debug, PartialEq, Eq, Structural)]
pub enum Command {
    Power,
    Red,
    Green,
    Blue,
    Delay,
    Index,
    Channel,
    Intensity,
    IndexUp,
    IndexDown,
    Version,
}

impl Command {
    /// The command's name as text.
    pub open spec fn label(self) -> Seq<char> {
        match self {
            Command::Power => "power"@,
            Command::Red => "red"@,
            Command::Green => "green"@,
            Command::Blue => "blue"@,
            Command::Delay => "delay"@,
            Command::Index => "index"@,
            Command::Channel => "channel"@,
            Command::Intensity => "intensity"@,
            Command::IndexUp => "indexup"@,
            Command::IndexDown => "indexdown"@,
            Command::Version => "version"@,
        }
    }

    /// The bytes by which a line selects the command: its name in UTF-8.
    pub open spec fn name(self) -> Seq<u8> {
        encode_utf8(self.label())
    }

    /// The command's name.
    pub fn text(self) -> (text: &'static str)
        ensures
            text@ == self.label(),
    {
        match self {
            Command::Power => "power",
            Command::Red => "red",
            Command::Green => "green",
            Command::Blue => "blue",
            Command::Delay => "delay",
            Command::Index => "index",
            Command::Channel => "channel",
            Command::Intensity => "intensity",
            Command::IndexUp => "indexup",
            Command::IndexDown => "indexdown",
            Command::Version => "version",
        }
    }

    /// The number of arguments that the command needs at least; the name does
    /// not count.
    pub open spec fn min_args(self) -> nat {
        match self {
            Command::Red
            | Command::Green
            | Command::Blue
            | Command::Delay
            | Command::Index
            | Command::Channel
            | Command::Intensity => 1,
            _ => 0,
        }
    }

    /// The least number of arguments of the command.
    pub fn min(self) -> (count: u8)
        ensures
            count == self.min_args(),
    {
        match self {
            Command::Red
            | Command::Green
            | Command::Blue
            | Command::Delay
            | Command::Index
            | Command::Channel
            | Command::Intensity => 1,
            _ => 0,
        }
    }

    /// Whether `token` is the command's name, byte for byte.
    pub fn is_named(self, token: &[u8]) -> (same: bool)
        ensures
            same == (token@ == self.name()),
    {
        same_bytes(token, self.text().as_bytes())
    }
}

/// The command table.
pub open spec fn command_table() -> Seq<Command> {
    seq![
        Command::Power,
        Command::Red,
        Command::Green,
        Command::Blue,
        Command::Delay,
        Command::Index,
        Command::Channel,
        Command::Intensity,
        Command::IndexUp,
        Command::IndexDown,
        Command::Version,
    ]
}

/// The first command of `table` at or after `from` whose name is `name`.
pub open spec fn named_from(table: Seq<Command>, name: Seq<u8>, from: int) -> Option<Command>
    decreases table.len() - from,
{
    if from < 0 || from >= table.len() {
        None
    } else if table[from].name() == name {
        Some(table[from])
    } else {
        named_from(table, name, from + 1)
    }
}

/// The command that a name selects, if the table holds one of that name.
pub open spec fn command_named(name: Seq<u8>) -> Option<Command> {
    named_from(command_table(), name, 0)
}

fn same_bytes(a: &[u8], b: &[u8]) -> (same: bool)
    ensures
        same == (a@ == b@),
{
    if a.len() != b.len() {
        return false;
    }
    let mut i: usize = 0;
    while i < a.len()
        invariant
            i <= a@.len(),
            a@.len() == b@.len(),
            forall|k: int| 0 <= k < i ==> a@[k] == b@[k],
        decreases a@.len() - i,
    {
        if a[i] != b[i] {
            return false;
        }
        i = i + 1;
    }
    assert(a@ =~= b@);
    true
}

/// Looks a token up in the command table. Names match exactly, case included.
pub fn find_command(token: &[u8]) -> (found: Option<Command>)
    ensures
        found == command_named(token@),
{
    let table: [Command; 11] = [
        Command::Power,
        Command::Red,
        Command::Green,
        Command::Blue,
        Command::Delay,
        Command::Index,
        Command::Channel,
        Command::Intensity,
        Command::IndexUp,
        Command::IndexDown,
        Command::Version,
    ];
    assert(table@ =~= command_table());
    let mut i: usize = 0;
    while i < 11
        invariant
            i <= 11,
            table@ == command_table(),
            named_from(command_table(), token@, i as int) == command_named(token@),
        decreases 11 - i,
    {
        if table[i].is_named(token) {
            return Some(table[i]);
        }
        i = i + 1;
    }
    None
}

/// What `lexical_core::parse::<u8>` makes of a text.
pub uninterp spec fn parsed_u8(text: Seq<u8>) -> Option<u8>;

/// What `lexical_core::parse::<u32>` makes of a text.
pub uninterp spec fn parsed_u32(text: Seq<u8>) -> Option<u32>;

/// What `lexical_core::parse::<i32>` makes of a text.
pub uninterp spec fn parsed_i32(text: Seq<u8>) -> Option<i32>;

/// Calls `lexical_core::parse::<u8>` on the whole text. The number it returns,
/// or that it returned an error, is `parsed_u8` of the text.
#[verifier::external_body]
fn parse_u8(text: &[u8]) -> (value: Option<u8>)
    ensures
        value == parsed_u8(text@),
{
    lexical_core::parse::<u8>(text).ok()
}

/// Calls `lexical_core::parse::<u32>` on the whole text. The number it
/// returns, or that it returned an error, is `parsed_u32` of the text.
#[verifier::external_body]
fn parse_u32(text: &[u8]) -> (value: Option<u32>)
    ensures
        value == parsed_u32(text@),
{
    lexical_core::parse::<u32>(text).ok()
}

/// Calls `lexical_core::parse::<i32>` on the whole text. The number it
/// returns, or that it returned an error, is `parsed_i32` of the text.
#[verifier::external_body]
fn parse_i32(text: &[u8]) -> (value: Option<i32>)
    ensures
        value == parsed_i32(text@),
{
    lexical_core::parse::<i32>(text).ok()
}

/// A command with its argument read. An argument that is not a number in the
/// range of its type is `None`.
#[derive(Copy, Clone, Debug, PartialEq, Eq, Structural)]
pub enum Request {
    Toggle,
    Power(Option<i32>),
    Red(Option<u8>),
    Green(Option<u8>),
    Blue(Option<u8>),
    Delay(Option<u32>),
    Index(Option<u32>),
    Channel(Option<u8>),
    Intensity(Option<u8>),
    IndexUp,
    IndexDown,
    Version,
}

/// What a line asks for.
#[derive(Copy, Clone, Debug, PartialEq, Eq, Structural)]
pub enum Parsed {
    /// The line holds no token.
    Blank,
    /// The first token names no command, or too few arguments follow it.
    Invalid,
    /// A command with enough arguments.
    Valid(Request),
}

/// The request that a command makes with the tokens of its line; the first
/// token is the command's name.
pub open spec fn request_for(command: Command, words: Seq<Seq<u8>>) -> Request {
    match command {
        Command::Power => if words.len() > 1 {
            Request::Power(parsed_i32(words[1]))
        } else {
            Request::Toggle
        },
        Command::Red => Request::Red(parsed_u8(words[1])),
        Command::Green => Request::Green(parsed_u8(words[1])),
        Command::Blue => Request::Blue(parsed_u8(words[1])),
        Command::Delay => Request::Delay(parsed_u32(words[1])),
        Command::Index => Request::Index(parsed_u32(words[1])),
        Command::Channel => Request::Channel(parsed_u8(words[1])),
        Command::Intensity => Request::Intensity(parsed_u8(words[1])),
        Command::IndexUp => Request::IndexUp,
        Command::IndexDown => Request::IndexDown,
        Command::Version => Request::Version,
    }
}

/// What a line asks for: nothing if it holds no token; otherwise its first
/// token must name a command and more tokens than the command's least number
/// of arguments must be there.
pub open spec fn read_line(line: Seq<u8>) -> Parsed {
    let words = tokens(line);
    if words.len() == 0 {
        Parsed::Blank
    } else {
        match command_named(words[0]) {
            None => Parsed::Invalid,
            Some(command) => if words.len() > command.min_args() {
                Parsed::Valid(request_for(command, words))
            } else {
                Parsed::Invalid
            },
        }
    }
}

/// The reply to a line that fails: `error` and a newline.
pub open spec fn error_text() -> Seq<u8> {
    encode_utf8("error\n"@)
}

/// The reply to the version command, newline included.
pub open spec fn version_text() -> Seq<u8> {
    encode_utf8("version 0.1"@).push(NEWLINE)
}

/// The reply to a line: none to a blank line, `error` to an invalid one, the
/// version to the version command, and to every other command the line itself,
/// followed by a newline.
pub open spec fn reply_for(outcome: Parsed, line: Seq<u8>) -> Seq<u8> {
    match outcome {
        Parsed::Blank => Seq::empty(),
        Parsed::Invalid => error_text(),
        Parsed::Valid(Request::Version) => version_text(),
        Parsed::Valid(_) => line.push(NEWLINE),
    }
}

/// A reply: the text and a newline.
pub fn send_response(text: &[u8]) -> (reply: Vec<u8>)
    ensures
        reply@ == text@.push(NEWLINE),
{
    let mut reply = slice_to_vec(text);
    reply.push(NEWLINE);
    reply
}

/// The reply to a line that fails.
pub fn return_error() -> (reply: Vec<u8>)
    ensures
        reply@ == error_text(),
{
    slice_to_vec("error\n".as_bytes())
}

/// Reads a line: splits it into tokens, looks the first one up in the command
/// table, checks the number of arguments, and reads the argument.
pub fn parse_line(line: &[u8]) -> (outcome: Parsed)
    ensures
        outcome == read_line(line@),
{
    let spans = tokenize(line);
    if spans.len() == 0 {
        return Parsed::Blank;
    }
    let ghost words = tokens(line@);
    let name = slice_subrange(line, spans[0].0, spans[0].1);
    assert(name@ == words[0]);
    match find_command(name) {
        None => Parsed::Invalid,
        Some(command) => {
            if spans.len() <= command.min() as usize {
                return Parsed::Invalid;
            }
            if spans.len() < 2 {
                let request = match command {
                    Command::Power => Request::Toggle,
                    Command::IndexUp => Request::IndexUp,
                    Command::IndexDown => Request::IndexDown,
                    _ => Request::Version,
                };
                return Parsed::Valid(request);
            }
            let argument = slice_subrange(line, spans[1].0, spans[1].1);
            assert(argument@ == words[1]);
            let request = match command {
                Command::Power => Request::Power(parse_i32(argument)),
                Command::Red => Request::Red(parse_u8(argument)),
                Command::Green => Request::Green(parse_u8(argument)),
                Command::Blue => Request::Blue(parse_u8(argument)),
                Command::Delay => Request::Delay(parse_u32(argument)),
                Command::Index => Request::Index(parse_u32(argument)),
                Command::Channel => Request::Channel(parse_u8(argument)),
                Command::Intensity => Request::Intensity(parse_u8(argument)),
                Command::IndexUp => Request::IndexUp,
                Command::IndexDown => Request::IndexDown,
                Command::Version => Request::Version,
            };
            Parsed::Valid(request)
        },
    }
}

} // verus!
