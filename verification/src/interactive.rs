//! The interactive prompt: what a line of input means.
//!
//! A line that starts with `#` is a directive to the prompt itself. Any other
//! line is a command for the player, read according to the input mode.

use crate::command::property::KnownMpvProperty;
use crate::text::{bytes_eq, find_byte, push_str, run_len, utf8};
use vstd::prelude::*;
use vstd::slice::slice_subrange;

verus! {

/// The byte that separates the words of a line.
pub const SPACE: u8 = 32;

/// How a line that is no directive is read.
#[derive(Clone, Copy, Debug, PartialEq, Eq, Structural)]
pub enum InputMode {
    /// The line holds the items of the command array, as JSON.
    Raw,
    /// The line holds words, each of which becomes one item.
    Quoted,
    /// The line holds one of the commands that are known by name.
    Known,
}

/// What a directive asks for.
#[derive(Clone, Copy, Debug, PartialEq, Eq, Structural)]
pub enum InputCommand {
    Events,
    Mode(InputMode),
    Quit,
    Help,
    /// No directive of the prompt.
    Invalid,
}

/// What the prompt does after a directive.
#[derive(Clone, Copy, Debug, PartialEq, Eq, Structural)]
pub enum InputAction {
    /// Read the next line.
    Continue,
    /// Poll for events, show them and take them off the queue, then read the
    /// next line.
    ShowEvents,
    /// Leave the prompt.
    Quit,
}

/// How far a seek goes, and from where.
#[derive(Clone, Copy, Debug, PartialEq, Eq, Structural)]
pub enum SeekKind {
    /// To a time, in seconds from the start.
    AbsoluteTime,
    /// To a position, in percent of the whole.
    AbsolutePercent,
    /// By a time, in seconds from where the player is.
    RelativeTime,
}

/// A command that is known by name, with its arguments as they stand on the
/// line.
#[derive(Debug, PartialEq, Eq)]
pub enum KnownCommand<T> {
    GetVersion,
    GetProperty { name: T },
    SetProperty { name: T, value: T },
    /// `set_property` with a name and no value.
    SetPropertyWithoutValue,
    CycleProperty { name: T },
    Seek { target: T, kind: SeekKind },
    Unrecognized,
}

impl<'a> View for KnownCommand<&'a [u8]> {
    type V = KnownCommand<Seq<u8>>;

    open spec fn view(&self) -> KnownCommand<Seq<u8>> {
        match *self {
            KnownCommand::GetVersion => KnownCommand::GetVersion,
            KnownCommand::GetProperty { name } => KnownCommand::GetProperty { name: name@ },
            KnownCommand::SetProperty { name, value } => KnownCommand::SetProperty {
                name: name@,
                value: value@,
            },
            KnownCommand::SetPropertyWithoutValue => KnownCommand::SetPropertyWithoutValue,
            KnownCommand::CycleProperty { name } => KnownCommand::CycleProperty { name: name@ },
            KnownCommand::Seek { target, kind } => KnownCommand::Seek { target: target@, kind },
            KnownCommand::Unrecognized => KnownCommand::Unrecognized,
        }
    }
}

/// The directive that a line holds.
pub open spec fn directive_of(line: Seq<u8>) -> InputCommand {
    if line == utf8("#events"@) {
        InputCommand::Events
    } else if line == utf8("#mode raw"@) {
        InputCommand::Mode(InputMode::Raw)
    } else if line == utf8("#mode string"@) {
        InputCommand::Mode(InputMode::Quoted)
    } else if line == utf8("#mode known"@) {
        InputCommand::Mode(InputMode::Known)
    } else if line == utf8("#quit"@) {
        InputCommand::Quit
    } else if line == utf8("#help"@) {
        InputCommand::Help
    } else {
        InputCommand::Invalid
    }
}

/// What the prompt says about an input mode.
pub open spec fn mode_text(mode: InputMode) -> Seq<u8> {
    match mode {
        InputMode::Raw => utf8(
            "\tRaw mode is on, input is directly pasted as JSON array elements\n"@,
        ),
        InputMode::Quoted => utf8(
            "\tString mode is on, input is split by spaces and elements are quoted (prefix element with @ to disable quoting)\n"@,
        ),
        InputMode::Known => utf8(
            "\tKnown mode is on, only known commands are accepted and their result is properly parsed\n"@,
        ) + utf8("\tKnown commands: get_version get_property set_property cycle seek\n"@),
    }
}

/// What the prompt says for help in an input mode.
pub open spec fn help_text(mode: InputMode) -> Seq<u8> {
    utf8("Help:\n"@) + utf8(
        "\tInput commands:\n\t\t#help\n\t\t#events\n\t\t#mode raw|string|known\n\t\t#quit\n"@,
    ) + mode_text(mode) + utf8("\n"@)
}

/// `line` without the line feed at its end, if it has one.
pub open spec fn without_line_feed(line: Seq<u8>) -> Seq<u8> {
    if line.len() > 0 && line.last() == 10u8 {
        line.drop_last()
    } else {
        line
    }
}

/// The item that a word of the line stands for, as JSON: the word between
/// quotes; with one `@` before it, the word as it is; with two, the word with
/// one `@`, between quotes.
pub open spec fn quoted_word(word: Seq<u8>) -> Seq<u8> {
    if word.len() >= 2 && word[0] == 64u8 && word[1] == 64u8 {
        seq![34u8] + word.skip(1) + seq![34u8]
    } else if word.len() >= 1 && word[0] == 64u8 {
        word.skip(1)
    } else {
        seq![34u8] + word + seq![34u8]
    }
}

/// The items that the words of a line stand for, with commas between them. The
/// words are what stands between the spaces of the line.
pub open spec fn quoted_words(line: Seq<u8>) -> Seq<u8>
    decreases line.len(),
{
    let n = run_len(line, SPACE) as int;
    if n < line.len() {
        quoted_word(line.take(n)) + seq![44u8] + quoted_words(line.skip(n + 1))
    } else {
        quoted_word(line)
    }
}

/// Whether the three bytes are a white-space character of three bytes.
pub open spec fn is_wide_space(a: u8, b: u8, c: u8) -> bool {
    ||| a == 0xE1 && b == 0x9A && c == 0x80
    ||| a == 0xE2 && b == 0x80 && (0x80 <= c <= 0x8A || c == 0xA8 || c == 0xA9 || c == 0xAF)
    ||| a == 0xE2 && b == 0x81 && c == 0x9F
    ||| a == 0xE3 && b == 0x80 && c == 0x80
}

/// The number of bytes of the white-space character that `s` starts with; 0
/// where it starts with none.
pub open spec fn leading_space(s: Seq<u8>) -> nat {
    if s.len() >= 1 && (9 <= s[0] <= 13 || s[0] == 32) {
        1
    } else if s.len() >= 2 && s[0] == 0xC2 && (s[1] == 0x85 || s[1] == 0xA0) {
        2
    } else if s.len() >= 3 && is_wide_space(s[0], s[1], s[2]) {
        3
    } else {
        0
    }
}

/// The number of bytes of the white-space character that `s` ends with; 0 where
/// it ends with none.
pub open spec fn trailing_space(s: Seq<u8>) -> nat {
    let n = s.len() as int;
    if n >= 1 && (9 <= s[n - 1] <= 13 || s[n - 1] == 32) {
        1
    } else if n >= 2 && s[n - 2] == 0xC2 && (s[n - 1] == 0x85 || s[n - 1] == 0xA0) {
        2
    } else if n >= 3 && is_wide_space(s[n - 3], s[n - 2], s[n - 1]) {
        3
    } else {
        0
    }
}

/// `s` without the white space that it starts with.
pub open spec fn trim_start(s: Seq<u8>) -> Seq<u8>
    decreases s.len(),
{
    if leading_space(s) > 0 {
        trim_start(s.skip(leading_space(s) as int))
    } else {
        s
    }
}

/// `s` without the white space that it ends with.
pub open spec fn trim_end(s: Seq<u8>) -> Seq<u8>
    decreases s.len(),
{
    if trailing_space(s) > 0 {
        trim_end(s.take(s.len() - trailing_space(s)))
    } else {
        s
    }
}

/// `s` without the white space around it.
pub open spec fn trimmed(s: Seq<u8>) -> Seq<u8> {
    trim_end(trim_start(s))
}

/// What follows the first space of `line`; nothing where it holds no space.
pub open spec fn after_space(line: Seq<u8>) -> Seq<u8> {
    if run_len(line, SPACE) < line.len() {
        line.skip(run_len(line, SPACE) as int + 1)
    } else {
        Seq::empty()
    }
}

/// The kind of seek that the word after the target asks for.
pub open spec fn seek_kind_of(word: Option<Seq<u8>>) -> SeekKind {
    match word {
        Some(w) => if w == utf8("absolute"@) {
            SeekKind::AbsoluteTime
        } else if w == utf8("absolute-percent"@) || w == utf8("relative-percent"@) {
            SeekKind::AbsolutePercent
        } else {
            SeekKind::RelativeTime
        },
        None => SeekKind::RelativeTime,
    }
}

/// The known command that a line holds.
pub open spec fn known_command_of(line: Seq<u8>) -> KnownCommand<Seq<u8>> {
    if trimmed(line) == utf8("get_version"@) {
        KnownCommand::GetVersion
    } else if utf8("get_property "@).is_prefix_of(line) || utf8("get "@).is_prefix_of(line) {
        KnownCommand::GetProperty { name: after_space(line) }
    } else if utf8("set_property "@).is_prefix_of(line) || utf8("set "@).is_prefix_of(line) {
        let rest = after_space(line);
        let n = run_len(rest, SPACE) as int;
        if n < rest.len() {
            KnownCommand::SetProperty { name: rest.take(n), value: rest.skip(n + 1) }
        } else {
            KnownCommand::SetPropertyWithoutValue
        }
    } else if utf8("cycle "@).is_prefix_of(line) {
        KnownCommand::CycleProperty { name: after_space(line) }
    } else if utf8("seek "@).is_prefix_of(line) {
        let rest = after_space(line);
        let n = run_len(rest, SPACE) as int;
        KnownCommand::Seek {
            target: rest.take(n),
            kind: seek_kind_of(
                if n < rest.len() {
                    Some(rest.skip(n + 1))
                } else {
                    None
                },
            ),
        }
    } else {
        KnownCommand::Unrecognized
    }
}

/// What the prompt answers to a line in place of running a command: that it
/// does not know the command, or that `set_property` lacks its value. Nothing
/// where the line holds a command to run.
pub open spec fn refusal_of(command: KnownCommand<Seq<u8>>) -> Seq<u8> {
    match command {
        KnownCommand::Unrecognized => utf8("Unrecognized command\n"@),
        KnownCommand::SetPropertyWithoutValue => utf8(
            "Error: set_property expects two arguments\n"@,
        ),
        _ => Seq::empty(),
    }
}

/// The property that the prompt gives a type of its own to under `name`: each
/// of the known properties but for the file name, which it takes like any
/// property that is given by its name only.
pub open spec fn prompt_property(name: Seq<char>) -> Option<KnownMpvProperty> {
    match KnownMpvProperty::named(name) {
        Some(KnownMpvProperty::Filename) => None,
        known => known,
    }
}

/// What the prompt answers to a seek of which the target is no number.
pub fn seek_target_refusal() -> (r: &'static str)
    ensures
        r@ == "Error: seek expects an f64 first argument\n"@,
{
    "Error: seek expects an f64 first argument\n"
}

/// Whether `s` starts with the bytes of `prefix`.
pub fn starts_with(s: &[u8], prefix: &str) -> (r: bool)
    ensures
        r == utf8(prefix@).is_prefix_of(s@),
{
    let p = prefix.as_bytes();
    if p.len() > s.len() {
        return false;
    }
    let r = bytes_eq(slice_subrange(s, 0, p.len()), p);
    proof {
        assert(s@.subrange(0, p@.len() as int) =~= s@.take(p@.len() as int));
    }
    r
}

/// Whether `s` is the bytes of `text`.
pub fn is_text(s: &[u8], text: &str) -> (r: bool)
    ensures
        r == (s@ == utf8(text@)),
{
    bytes_eq(s, text.as_bytes())
}

/// Takes a line feed off the end of a line.
pub fn strip_line_feed(line: &[u8]) -> (r: &[u8])
    ensures
        r@ == without_line_feed(line@),
{
    let n: usize = line.len();
    if n > 0 && line[n - 1] == 10u8 {
        slice_subrange(line, 0, n - 1)
    } else {
        line
    }
}

/// Whether a line is a directive to the prompt: it starts with `#`.
pub fn is_directive(line: &[u8]) -> (r: bool)
    ensures
        r == (line@.len() > 0 && line@[0] == 35u8),
{
    line.len() > 0 && line[0] == 35u8
}

/// Reads a directive.
pub fn parse_directive(line: &[u8]) -> (r: InputCommand)
    ensures
        r == directive_of(line@),
{
    if is_text(line, "#events") {
        InputCommand::Events
    } else if is_text(line, "#mode raw") {
        InputCommand::Mode(InputMode::Raw)
    } else if is_text(line, "#mode string") {
        InputCommand::Mode(InputMode::Quoted)
    } else if is_text(line, "#mode known") {
        InputCommand::Mode(InputMode::Known)
    } else if is_text(line, "#quit") {
        InputCommand::Quit
    } else if is_text(line, "#help") {
        InputCommand::Help
    } else {
        InputCommand::Invalid
    }
}

fn leading_space_at(s: &[u8], start: usize, end: usize) -> (r: usize)
    requires
        start <= end <= s.len(),
    ensures
        r == leading_space(s@.subrange(start as int, end as int)),
        start + r <= end,
{
    let ghost t = s@.subrange(start as int, end as int);
    let n: usize = end - start;
    if n >= 1 {
        assert(t[0] == s@[start as int]);
    }
    if n >= 2 {
        assert(t[1] == s@[start + 1]);
    }
    if n >= 3 {
        assert(t[2] == s@[start + 2]);
    }
    if n >= 1 && ((9 <= s[start] && s[start] <= 13) || s[start] == 32) {
        1
    } else if n >= 2 && s[start] == 0xC2 && (s[start + 1] == 0x85 || s[start + 1] == 0xA0) {
        2
    } else if n >= 3 && wide_space(s[start], s[start + 1], s[start + 2]) {
        3
    } else {
        0
    }
}

fn trailing_space_at(s: &[u8], start: usize, end: usize) -> (r: usize)
    requires
        start <= end <= s.len(),
    ensures
        r == trailing_space(s@.subrange(start as int, end as int)),
        start + r <= end,
{
    let ghost t = s@.subrange(start as int, end as int);
    let n: usize = end - start;
    if n >= 1 {
        assert(t[n - 1] == s@[end - 1]);
    }
    if n >= 2 {
        assert(t[n - 2] == s@[end - 2]);
    }
    if n >= 3 {
        assert(t[n - 3] == s@[end - 3]);
    }
    if n >= 1 && ((9 <= s[end - 1] && s[end - 1] <= 13) || s[end - 1] == 32) {
        1
    } else if n >= 2 && s[end - 2] == 0xC2 && (s[end - 1] == 0x85 || s[end - 1] == 0xA0) {
        2
    } else if n >= 3 && wide_space(s[end - 3], s[end - 2], s[end - 1]) {
        3
    } else {
        0
    }
}

fn wide_space(a: u8, b: u8, c: u8) -> (r: bool)
    ensures
        r == is_wide_space(a, b, c),
{
    (a == 0xE1 && b == 0x9A && c == 0x80) || (a == 0xE2 && b == 0x80 && ((0x80 <= c && c <= 0x8A)
        || c == 0xA8 || c == 0xA9 || c == 0xAF)) || (a == 0xE2 && b == 0x81 && c == 0x9F) || (a
        == 0xE3 && b == 0x80 && c == 0x80)
}

/// Takes the white space off both ends of a line.
pub fn trim(line: &[u8]) -> (r: &[u8])
    ensures
        r@ == trimmed(line@),
{
    let len: usize = line.len();
    let mut start: usize = 0;
    let mut k: usize = leading_space_at(line, start, len);
    assert(line@.subrange(0, len as int) =~= line@);
    while k > 0
        invariant
            start <= len,
            len == line.len(),
            start + k <= len,
            k == leading_space(line@.subrange(start as int, len as int)),
            trim_start(line@) == trim_start(line@.subrange(start as int, len as int)),
        decreases len - start,
    {
        proof {
            let t = line@.subrange(start as int, len as int);
            assert(t.skip(k as int) =~= line@.subrange(start + k, len as int));
        }
        start += k;
        k = leading_space_at(line, start, len);
    }
    let ghost middle = line@.subrange(start as int, len as int);
    let mut end: usize = len;
    k = trailing_space_at(line, start, end);
    while k > 0
        invariant
            start <= end <= len,
            len == line.len(),
            start + k <= end,
            k == trailing_space(line@.subrange(start as int, end as int)),
            trim_end(middle) == trim_end(line@.subrange(start as int, end as int)),
        decreases end - start,
    {
        proof {
            let t = line@.subrange(start as int, end as int);
            assert(t.take(t.len() - k) =~= line@.subrange(start as int, end - k));
        }
        end -= k;
        k = trailing_space_at(line, start, end);
    }
    slice_subrange(line, start, end)
}

/// Appends to `out` the item that a word stands for.
pub fn push_quoted_word(out: &mut Vec<u8>, word: &[u8])
    ensures
        final(out)@ == old(out)@ + quoted_word(word@),
{
    let n: usize = word.len();
    if n >= 2 && word[0] == 64u8 && word[1] == 64u8 {
        out.push(34u8);
        out.extend_from_slice(slice_subrange(word, 1, n));
        out.push(34u8);
        assert(word@.subrange(1, n as int) =~= word@.skip(1));
        assert(out@ =~= old(out)@ + quoted_word(word@));
    } else if n >= 1 && word[0] == 64u8 {
        out.extend_from_slice(slice_subrange(word, 1, n));
        assert(word@.subrange(1, n as int) =~= word@.skip(1));
        assert(out@ =~= old(out)@ + quoted_word(word@));
    } else {
        out.push(34u8);
        out.extend_from_slice(word);
        out.push(34u8);
        assert(out@ =~= old(out)@ + quoted_word(word@));
    }
}

/// The state of the prompt.
#[derive(Debug, PartialEq, Eq)]
pub struct InteractiveContext {
    pub mode: InputMode,
}

impl InteractiveContext {
    /// A prompt in the mode that reads words.
    pub fn new() -> (r: Self)
        ensures
            r.mode == InputMode::Quoted,
    {
        InteractiveContext { mode: InputMode::Quoted }
    }

    /// Appends what the prompt says about its input mode.
    pub fn write_mode(&self, out: &mut Vec<u8>)
        ensures
            final(out)@ == old(out)@ + mode_text(self.mode),
    {
        match self.mode {
            InputMode::Raw => {
                push_str(
                    out,
                    "\tRaw mode is on, input is directly pasted as JSON array elements\n",
                );
            },
            InputMode::Quoted => {
                push_str(
                    out,
                    "\tString mode is on, input is split by spaces and elements are quoted (prefix element with @ to disable quoting)\n",
                );
            },
            InputMode::Known => {
                push_str(
                    out,
                    "\tKnown mode is on, only known commands are accepted and their result is properly parsed\n",
                );
                push_str(
                    out,
                    "\tKnown commands: get_version get_property set_property cycle seek\n",
                );
                assert(out@ =~= old(out)@ + mode_text(self.mode));
            },
        }
    }

    /// Appends what the prompt says for help.
    pub fn write_help(&self, out: &mut Vec<u8>)
        ensures
            final(out)@ == old(out)@ + help_text(self.mode),
    {
        push_str(out, "Help:\n");
        push_str(
            out,
            "\tInput commands:\n\t\t#help\n\t\t#events\n\t\t#mode raw|string|known\n\t\t#quit\n",
        );
        self.write_mode(out);
        push_str(out, "\n");
        assert(out@ =~= old(out)@ + help_text(self.mode));
    }

    /// Carries out a directive: changes the mode where the directive names
    /// one, appends to `out` what the prompt answers, and tells what the prompt
    /// does next.
    pub fn handle_input_command(&mut self, line: &[u8], out: &mut Vec<u8>) -> (r: InputAction)
        ensures
            match directive_of(line@) {
                InputCommand::Events => {
                    &&& r == InputAction::ShowEvents
                    &&& final(self).mode == old(self).mode
                    &&& final(out)@ == old(out)@
                },
                InputCommand::Mode(mode) => {
                    &&& r == InputAction::Continue
                    &&& final(self).mode == mode
                    &&& final(out)@ == old(out)@ + mode_text(mode)
                },
                InputCommand::Quit => {
                    &&& r == InputAction::Quit
                    &&& final(self).mode == old(self).mode
                    &&& final(out)@ == old(out)@
                },
                InputCommand::Help => {
                    &&& r == InputAction::Continue
                    &&& final(self).mode == old(self).mode
                    &&& final(out)@ == old(out)@ + help_text(old(self).mode)
                },
                InputCommand::Invalid => {
                    &&& r == InputAction::Continue
                    &&& final(self).mode == old(self).mode
                    &&& final(out)@ == old(out)@ + utf8("Error: Invalid input command\n"@)
                },
            },
    {
        match parse_directive(line) {
            InputCommand::Events => InputAction::ShowEvents,
            InputCommand::Mode(mode) => {
                self.mode = mode;
                self.write_mode(out);
                InputAction::Continue
            },
            InputCommand::Quit => InputAction::Quit,
            InputCommand::Help => {
                self.write_help(out);
                InputAction::Continue
            },
            InputCommand::Invalid => {
                push_str(out, "Error: Invalid input command\n");
                InputAction::Continue
            },
        }
    }

    /// Reads a line of words: the items of the command array that the words
    /// stand for, as JSON, with commas between them.
    pub fn run_string_command(line: &[u8]) -> (command: Vec<u8>)
        ensures
            command@ == quoted_words(line@),
    {
        let mut command: Vec<u8> = Vec::new();
        let mut start: usize = 0;
        assert(line@.skip(0) =~= line@);
        loop
            invariant
                start <= line.len(),
                command@ + quoted_words(line@.skip(start as int)) == quoted_words(line@),
            decreases line.len() - start,
        {
            let end: usize = find_byte(line, start, SPACE);
            let ghost rest = line@.skip(start as int);
            let ghost before = command@;
            push_quoted_word(&mut command, slice_subrange(line, start, end));
            proof {
                assert(line@.subrange(start as int, end as int) =~= rest.take(end - start));
            }
            if end == line.len() {
                proof {
                    assert(rest.take(end - start) =~= rest);
                }
                return command;
            }
            command.push(44u8);
            proof {
                assert(rest.skip(end - start + 1) =~= line@.skip(end + 1));
                assert(command@ + quoted_words(line@.skip(end + 1)) =~= before + quoted_words(
                    rest,
                ));
            }
            start = end + 1;
        }
    }

    /// Finds the property that the prompt gives a type of its own to.
    pub fn choose_property(name: &str) -> (r: Option<KnownMpvProperty>)
        ensures
            r == prompt_property(name@),
    {
        match KnownMpvProperty::from_name(name) {
            Some(KnownMpvProperty::Filename) => None,
            known => known,
        }
    }

    /// Reads a line that holds a command known by name, and appends to `out`
    /// what the prompt answers where the line holds none to run. The command
    /// that is returned is run only where nothing was appended.
    pub fn run_known_command<'a>(line: &'a [u8], out: &mut Vec<u8>) -> (r: KnownCommand<
        &'a [u8],
    >)
        ensures
            r@ == known_command_of(line@),
            final(out)@ == old(out)@ + refusal_of(known_command_of(line@)),
    {
        let command = Self::parse_known_command(line);
        match command {
            KnownCommand::Unrecognized => push_str(out, "Unrecognized command\n"),
            KnownCommand::SetPropertyWithoutValue => push_str(
                out,
                "Error: set_property expects two arguments\n",
            ),
            _ => {
                assert(out@ + Seq::<u8>::empty() =~= out@);
            },
        }
        command
    }

    /// Tells which command known by name a line holds.
    pub fn parse_known_command<'a>(line: &'a [u8]) -> (r: KnownCommand<&'a [u8]>)
        ensures
            r@ == known_command_of(line@),
    {
        if is_text(trim(line), "get_version") {
            return KnownCommand::GetVersion;
        }
        let len: usize = line.len();
        let space: usize = find_byte(line, 0, SPACE);
        assert(line@.skip(0) =~= line@);
        let tail = if space < len {
            slice_subrange(line, space + 1, len)
        } else {
            slice_subrange(line, len, len)
        };
        assert(tail@ =~= after_space(line@));
        if starts_with(line, "get_property ") || starts_with(line, "get ") {
            return KnownCommand::GetProperty { name: tail };
        }
        if starts_with(line, "set_property ") || starts_with(line, "set ") {
            let rest = tail;
            let split: usize = find_byte(rest, 0, SPACE);
            assert(rest@.skip(0) =~= rest@);
            if split < rest.len() {
                let name = slice_subrange(rest, 0, split);
                let value = slice_subrange(rest, split + 1, rest.len());
                assert(name@ =~= rest@.take(split as int));
                assert(value@ =~= rest@.skip(split + 1));
                return KnownCommand::SetProperty { name, value };
            } else {
                return KnownCommand::SetPropertyWithoutValue;
            }
        }
        if starts_with(line, "cycle ") {
            return KnownCommand::CycleProperty { name: tail };
        }
        if starts_with(line, "seek ") {
            let rest = tail;
            let split: usize = find_byte(rest, 0, SPACE);
            assert(rest@.skip(0) =~= rest@);
            let target = slice_subrange(rest, 0, split);
            assert(target@ =~= rest@.take(split as int));
            let kind = if split < rest.len() {
                let word = slice_subrange(rest, split + 1, rest.len());
                assert(word@ =~= rest@.skip(split + 1));
                if is_text(word, "absolute") {
                    SeekKind::AbsoluteTime
                } else if is_text(word, "absolute-percent") || is_text(word, "relative-percent") {
                    SeekKind::AbsolutePercent
                } else {
                    SeekKind::RelativeTime
                }
            } else {
                SeekKind::RelativeTime
            };
            return KnownCommand::Seek { target, kind };
        }
        KnownCommand::Unrecognized
    }
}

} // verus!
