//! The benchmark driver's settings, payloads and response checks.
use crate::bytes::same_text;
use crate::cli::{received_plaintext, ResultError};
use crate::primitives::base64_value;
use crate::protocol::{Success, SuccessView};
use crate::text::{decimal_number, parse_decimal};
use vstd::prelude::*;

verus! {

/// Which paths a benchmark measures.
#[derive(Clone, Copy, Debug, PartialEq, Eq, Structural)]
pub enum Mode {
    /// The vault alone.
    Direct,
    /// The daemon behind its socket.
    Rpc,
    /// First the vault, then the daemon.
    Both,
}

/// The mode that a text names.
pub open spec fn mode_named(value: Seq<char>) -> Option<Mode> {
    if value == "direct"@ {
        Some(Mode::Direct)
    } else if value == "rpc"@ {
        Some(Mode::Rpc)
    } else if value == "both"@ {
        Some(Mode::Both)
    } else {
        None
    }
}

impl Mode {
    /// Parses a mode.
    pub fn parse(value: &str) -> (res: Result<Self, BenchError>)
        ensures
            match (res, mode_named(value@)) {
                (Ok(mode), Some(expected)) => mode == expected,
                (Err(error), None) => error == BenchError::ModeValue,
                _ => false,
            },
    {
        if same_text(value, "direct") {
            Ok(Mode::Direct)
        } else if same_text(value, "rpc") {
            Ok(Mode::Rpc)
        } else if same_text(value, "both") {
            Ok(Mode::Both)
        } else {
            Err(BenchError::ModeValue)
        }
    }

    /// Returns whether the vault is measured alone.
    #[must_use]
    pub fn includes_direct(self) -> (res: bool)
        ensures
            res == (self is Direct || self is Both),
    {
        matches!(self, Mode::Direct | Mode::Both)
    }

    /// Returns whether the daemon is measured.
    #[must_use]
    pub fn includes_rpc(self) -> (res: bool)
        ensures
            res == (self is Rpc || self is Both),
    {
        matches!(self, Mode::Rpc | Mode::Both)
    }
}

/// Why a benchmark does not run or is not counted.
#[derive(Clone, Copy, Debug, PartialEq, Eq, Structural)]
pub enum BenchError {
    /// `--payloads-kib` stands last.
    PayloadsMissing,
    /// The payload list does not parse.
    PayloadsValue,
    /// `--runs` stands last.
    RunsMissing,
    /// The run count does not parse.
    RunsValue,
    /// `--mode` stands last.
    ModeMissing,
    /// The mode is not known.
    ModeValue,
    /// The argument at this position is not known.
    Unknown {
        /// Position of the argument.
        position: usize,
    },
    /// A payload size or the run count is zero.
    Zero,
    /// A payload size does not fit.
    PayloadSize,
    /// The daemon answered with something else than an empty result.
    ExpectedEmpty,
    /// The daemon answered with something else than a published version.
    ExpectedPublished,
    /// The daemon answered with something else than a plaintext.
    ExpectedPlaintext,
    /// The plaintext in a response is not base64.
    PlaintextEncoding,
}

/// Settings of a benchmark.
#[derive(Debug)]
pub struct Config {
    /// Payload sizes in KiB, in the order in which they are measured.
    pub payloads_kib: Vec<u32>,
    /// Repetitions of each payload size.
    pub runs: usize,
    /// What is measured.
    pub mode: Mode,
}

/// The settings of a benchmark, or that help was asked for.
#[derive(Debug)]
pub enum Invocation {
    /// Run with these settings.
    Run {
        /// The settings.
        config: Config,
    },
    /// Explain the arguments.
    Help,
}

/// The settings gathered so far.
pub ghost struct Settings {
    pub payloads_kib: Seq<u32>,
    pub runs: usize,
    pub mode: Mode,
}

/// What a list of arguments asks for.
pub ghost enum Asked {
    Run { settings: Settings },
    Help,
}

/// The settings without any argument.
pub open spec fn default_settings() -> Settings {
    Settings { payloads_kib: seq![4, 64, 1024, 4096], runs: 5, mode: Mode::Both }
}

/// The position of the first comma at or behind a position, or the end.
pub open spec fn next_comma(text: Seq<char>, start: int) -> int
    decreases text.len() - start,
{
    if start >= text.len() || text[start] == ',' {
        start
    } else {
        next_comma(text, start + 1)
    }
}

/// The numbers of a comma-separated list from a position on.
pub open spec fn payload_list(text: Seq<char>, start: int) -> Option<Seq<u32>>
    decreases text.len() - start,
    when 0 <= start <= text.len()
    via payload_list_decreases
{
    let end = next_comma(text, start);
    match decimal_number(text.subrange(start, end), u32::MAX as u64) {
        None => None,
        Some(value) => if end >= text.len() {
            Some(seq![value as u32])
        } else {
            match payload_list(text, end + 1) {
                None => None,
                Some(rest) => Some(seq![value as u32] + rest),
            }
        },
    }
}

#[via_fn]
proof fn payload_list_decreases(text: Seq<char>, start: int) {
    lemma_next_comma(text, start);
}

proof fn lemma_next_comma(text: Seq<char>, start: int)
    requires
        0 <= start <= text.len(),
    ensures
        start <= next_comma(text, start) <= text.len(),
        next_comma(text, start) < text.len() ==> text[next_comma(text, start)] == ',',
    decreases text.len() - start,
{
    if start < text.len() && text[start] != ',' {
        lemma_next_comma(text, start + 1);
    }
}

/// What the arguments from a position on come to.
pub open spec fn arguments_verdict(
    arguments: Seq<Seq<char>>,
    position: int,
    settings: Settings,
) -> Result<Asked, BenchError>
    decreases arguments.len() - position,
{
    if position >= arguments.len() {
        if settings.payloads_kib.contains(0) || settings.payloads_kib.len() == 0 || settings.runs
            == 0 {
            Err(BenchError::Zero)
        } else {
            Ok(Asked::Run { settings })
        }
    } else if arguments[position] == "--payloads-kib"@ {
        if position + 1 >= arguments.len() {
            Err(BenchError::PayloadsMissing)
        } else {
            match payload_list(arguments[position + 1], 0) {
                None => Err(BenchError::PayloadsValue),
                Some(payloads_kib) => arguments_verdict(
                    arguments,
                    position + 2,
                    Settings { payloads_kib, ..settings },
                ),
            }
        }
    } else if arguments[position] == "--runs"@ {
        if position + 1 >= arguments.len() {
            Err(BenchError::RunsMissing)
        } else {
            match decimal_number(arguments[position + 1], usize::MAX as u64) {
                None => Err(BenchError::RunsValue),
                Some(runs) => arguments_verdict(
                    arguments,
                    position + 2,
                    Settings { runs: runs as usize, ..settings },
                ),
            }
        }
    } else if arguments[position] == "--mode"@ {
        if position + 1 >= arguments.len() {
            Err(BenchError::ModeMissing)
        } else {
            match mode_named(arguments[position + 1]) {
                None => Err(BenchError::ModeValue),
                Some(mode) => arguments_verdict(
                    arguments,
                    position + 2,
                    Settings { mode, ..settings },
                ),
            }
        }
    } else if arguments[position] == "--help"@ || arguments[position] == "-h"@ {
        Ok(Asked::Help)
    } else {
        Err(BenchError::Unknown { position: position as usize })
    }
}

/// The texts of a list.
pub open spec fn texts(arguments: Seq<String>) -> Seq<Seq<char>> {
    Seq::new(arguments.len(), |i: int| arguments[i]@)
}

fn parse_payloads(text: &str) -> (res: Option<Vec<u32>>)
    ensures
        match (res, payload_list(text@, 0)) {
            (Some(payloads), Some(expected)) => payloads@ == expected,
            (None, None) => true,
            _ => false,
        },
{
    let length: usize = text.unicode_len();
    let mut payloads: Vec<u32> = Vec::new();
    let mut start: usize = 0;
    loop
        invariant
            length == text@.len(),
            start <= length,
            payload_list(text@, 0) == match payload_list(text@, start as int) {
                Some(rest) => Some(payloads@ + rest),
                None => None,
            },
        decreases length - start,
    {
        let mut end: usize = start;
        while end < length && text.get_char(end) != ','
            invariant
                length == text@.len(),
                start <= end <= length,
                next_comma(text@, start as int) == next_comma(text@, end as int),
            decreases length - end,
        {
            end += 1;
        }
        assert(end == next_comma(text@, start as int));
        match parse_decimal(text.substring_char(start, end), u32::MAX as u64) {
            Some(value) => {
                let ghost before = payloads@;
                payloads.push(value as u32);
                if end >= length {
                    assert(payloads@ =~= before + seq![value as u32]);
                    return Some(payloads);
                }
                proof {
                    match payload_list(text@, end + 1) {
                        Some(rest) => {
                            assert(before + (seq![value as u32] + rest) =~= payloads@ + rest);
                        },
                        None => {},
                    }
                }
                start = end + 1;
            },
            None => {
                return None;
            },
        }
    }
}

fn contains_zero(values: &Vec<u32>) -> (res: bool)
    ensures
        res == values@.contains(0),
{
    let mut index: usize = 0;
    while index < values.len()
        invariant
            index <= values@.len(),
            forall|i: int| 0 <= i < index ==> values@[i] != 0,
        decreases values@.len() - index,
    {
        if values[index] == 0 {
            assert(values@[index as int] == 0);
            return true;
        }
        index += 1;
    }
    false
}

impl Config {
    /// Parses the arguments behind the program's name.
    pub fn parse(arguments: &Vec<String>) -> (res: Result<Invocation, BenchError>)
        ensures
            match (res, arguments_verdict(texts(arguments@), 0, default_settings())) {
                (Ok(Invocation::Run { config }), Ok(Asked::Run { settings })) => {
                    &&& config.payloads_kib@ == settings.payloads_kib
                    &&& config.runs == settings.runs
                    &&& config.mode == settings.mode
                },
                (Ok(Invocation::Help), Ok(Asked::Help)) => true,
                (Err(error), Err(expected)) => error == expected,
                _ => false,
            },
    {
        let mut payloads_kib: Vec<u32> = vec![4u32, 64, 1024, 4096];
        let mut runs: usize = 5;
        let mut mode = Mode::Both;
        let mut position: usize = 0;
        let ghost list = texts(arguments@);
        assert(payloads_kib@ =~= default_settings().payloads_kib);
        while position < arguments.len()
            invariant
                list == texts(arguments@),
                position <= arguments@.len(),
                arguments_verdict(list, 0, default_settings()) == arguments_verdict(
                    list,
                    position as int,
                    Settings { payloads_kib: payloads_kib@, runs, mode },
                ),
            decreases arguments@.len() - position,
        {
            let argument = arguments[position].as_str();
            assert(argument@ == list[position as int]);
            if same_text(argument, "--payloads-kib") {
                if position + 1 >= arguments.len() {
                    return Err(BenchError::PayloadsMissing);
                }
                assert(arguments@[position + 1]@ == list[position + 1]);
                match parse_payloads(arguments[position + 1].as_str()) {
                    Some(payloads) => {
                        payloads_kib = payloads;
                    },
                    None => {
                        return Err(BenchError::PayloadsValue);
                    },
                }
                position += 2;
            } else if same_text(argument, "--runs") {
                if position + 1 >= arguments.len() {
                    return Err(BenchError::RunsMissing);
                }
                assert(arguments@[position + 1]@ == list[position + 1]);
                match parse_decimal(arguments[position + 1].as_str(), usize::MAX as u64) {
                    Some(value) => {
                        runs = value as usize;
                    },
                    None => {
                        return Err(BenchError::RunsValue);
                    },
                }
                position += 2;
            } else if same_text(argument, "--mode") {
                if position + 1 >= arguments.len() {
                    return Err(BenchError::ModeMissing);
                }
                assert(arguments@[position + 1]@ == list[position + 1]);
                mode = Mode::parse(arguments[position + 1].as_str())?;
                position += 2;
            } else if same_text(argument, "--help") || same_text(argument, "-h") {
                return Ok(Invocation::Help);
            } else {
                return Err(BenchError::Unknown { position });
            }
        }
        if payloads_kib.len() == 0 || contains_zero(&payloads_kib) || runs == 0 {
            return Err(BenchError::Zero);
        }
        Ok(Invocation::Run { config: Config { payloads_kib, runs, mode } })
    }
}

/// The benchmark payload of a length.
pub open spec fn payload_bytes(length: nat) -> Seq<u8> {
    Seq::new(length, |i: int| (i % 251) as u8)
}

/// Builds the benchmark payload of a size in KiB.
pub fn payload_for(payload_kib: u32) -> (res: Result<Vec<u8>, BenchError>)
    ensures
        match res {
            Ok(payload) => {
                &&& payload_kib * 1024 <= u32::MAX
                &&& payload@ == payload_bytes((payload_kib * 1024) as nat)
            },
            Err(error) => {
                &&& payload_kib * 1024 > u32::MAX
                &&& error == BenchError::PayloadSize
            },
        },
{
    match payload_kib.checked_mul(1024) {
        Some(length) => Ok(deterministic_payload(length as usize)),
        None => Err(BenchError::PayloadSize),
    }
}

/// Builds the benchmark payload of a length: the numbers below 251, over and over.
#[must_use]
pub fn deterministic_payload(length: usize) -> (res: Vec<u8>)
    ensures
        res@ == payload_bytes(length as nat),
{
    let mut payload: Vec<u8> = Vec::new();
    let mut index: usize = 0;
    while index < length
        invariant
            index <= length,
            payload@ == payload_bytes(index as nat),
        decreases length - index,
    {
        payload.push((index % 251) as u8);
        index += 1;
        assert(payload@ =~= payload_bytes(index as nat));
    }
    payload
}

/// Checks that a result is empty.
pub fn expect_empty(result: &Success) -> (res: Result<(), BenchError>)
    ensures
        res == if result is Empty {
            Ok::<(), BenchError>(())
        } else {
            Err(BenchError::ExpectedEmpty)
        },
{
    match result {
        Success::Empty => Ok(()),
        _ => Err(BenchError::ExpectedEmpty),
    }
}

/// Checks that a result is a published version.
pub fn expect_published(result: &Success) -> (res: Result<(), BenchError>)
    ensures
        res == if result is Published {
            Ok::<(), BenchError>(())
        } else {
            Err(BenchError::ExpectedPublished)
        },
{
    match result {
        Success::Published { version_id: _ } => Ok(()),
        _ => Err(BenchError::ExpectedPublished),
    }
}

/// Returns the plaintext of a result.
pub fn expect_plaintext(result: &Success) -> (res: Result<Vec<u8>, BenchError>)
    ensures
        match result@ {
            SuccessView::Plaintext { plaintext_b64 } => match (res, base64_value(plaintext_b64)) {
                (Ok(plaintext), Some(expected)) => plaintext@ == expected,
                (Err(error), None) => error == BenchError::PlaintextEncoding,
                _ => false,
            },
            _ => res == Err::<Vec<u8>, _>(BenchError::ExpectedPlaintext),
        },
{
    match received_plaintext(result) {
        Ok(plaintext) => Ok(plaintext),
        Err(ResultError::Encoding) => Err(BenchError::PlaintextEncoding),
        Err(ResultError::Unexpected) => Err(BenchError::ExpectedPlaintext),
    }
}

proof fn lemma_comma_behind(front: Seq<char>, text: Seq<char>, start: int)
    requires
        0 <= start <= text.len(),
    ensures
        next_comma(front + text, front.len() + start) == front.len() + next_comma(text, start),
    decreases text.len() - start,
{
    let joined = front + text;
    if start < text.len() {
        assert(joined[front.len() + start] == text[start]);
        if text[start] != ',' {
            lemma_comma_behind(front, text, start + 1);
        }
    }
}

proof fn lemma_list_behind(front: Seq<char>, text: Seq<char>, start: int)
    requires
        0 <= start <= text.len(),
    ensures
        payload_list(front + text, front.len() + start) == payload_list(text, start),
    decreases text.len() - start,
{
    let joined = front + text;
    let end = next_comma(text, start);
    lemma_next_comma(text, start);
    lemma_comma_behind(front, text, start);
    assert(joined.subrange(front.len() + start, front.len() + end) =~= text.subrange(start, end));
    if end < text.len() {
        lemma_list_behind(front, text, end + 1);
    }
}

proof fn lemma_no_comma(text: Seq<char>, start: int, end: int)
    requires
        0 <= start <= end <= text.len(),
        forall|i: int| start <= i < end ==> #[trigger] text[i] != ',',
        end < text.len() ==> text[end] == ',',
    ensures
        next_comma(text, start) == end,
    decreases end - start,
{
    if start < end {
        assert(text[start] != ',');
        lemma_no_comma(text, start + 1, end);
    }
}

/// A list of payload sizes is read item by item: an item without a comma is one number, and
/// an item, a comma and a list are the item's number in front of the list's numbers. An item
/// that is no number makes the whole list none.
pub proof fn payload_lists_are_read_item_by_item(item: Seq<char>, rest: Seq<char>)
    requires
        forall|i: int| 0 <= i < item.len() ==> #[trigger] item[i] != ',',
    ensures
        payload_list(item, 0) == match decimal_number(item, 0xffff_ffff) {
            Some(value) => Some(seq![value as u32]),
            None => None,
        },
        payload_list(item + seq![','] + rest, 0) == match (
            decimal_number(item, 0xffff_ffff),
            payload_list(rest, 0),
        ) {
            (Some(value), Some(values)) => Some(seq![value as u32] + values),
            _ => None,
        },
{
    let front = item + seq![','];
    let text = front + rest;
    lemma_no_comma(item, 0, item.len() as int);
    assert(item.subrange(0, item.len() as int) =~= item);
    assert forall|i: int| 0 <= i < item.len() implies #[trigger] text[i] != ',' by {
        assert(text[i] == item[i]);
    }
    assert(text[item.len() as int] == ',');
    lemma_no_comma(text, 0, item.len() as int);
    assert(text.subrange(0, item.len() as int) =~= item);
    lemma_list_behind(front, rest, 0);
}

/// A benchmark without arguments measures payloads of 4, 64, 1024 and 4096 KiB five times
/// each, both directly and through the daemon.
pub proof fn benchmarks_have_defaults(arguments: Seq<Seq<char>>)
    requires
        arguments.len() == 0,
    ensures
        arguments_verdict(arguments, 0, default_settings()) == Ok::<_, BenchError>(
            Asked::Run {
                settings: Settings {
                    payloads_kib: seq![4, 64, 1024, 4096],
                    runs: 5,
                    mode: Mode::Both,
                },
            },
        ),
{
    let payloads = default_settings().payloads_kib;
    assert(payloads.len() == 4);
    assert forall|i: int| 0 <= i < payloads.len() implies payloads[i] != 0 by {}
    assert(!payloads.contains(0));
}

/// Each option sets its own setting and no other, the later one counts, and no option may
/// leave a size or the number of runs at zero.
pub proof fn options_set_their_own_setting(
    arguments: Seq<Seq<char>>,
    position: int,
    settings: Settings,
)
    requires
        0 <= position,
        position + 1 < arguments.len(),
    ensures
        arguments[position] == "--runs"@ ==> match decimal_number(
            arguments[position + 1],
            usize::MAX as u64,
        ) {
            Some(runs) => arguments_verdict(arguments, position, settings) == arguments_verdict(
                arguments,
                position + 2,
                Settings {
                    payloads_kib: settings.payloads_kib,
                    runs: runs as usize,
                    mode: settings.mode,
                },
            ),
            None => arguments_verdict(arguments, position, settings) is Err,
        },
        arguments[position] == "--payloads-kib"@ ==> match payload_list(
            arguments[position + 1],
            0,
        ) {
            Some(payloads_kib) => arguments_verdict(arguments, position, settings)
                == arguments_verdict(
                arguments,
                position + 2,
                Settings { payloads_kib, runs: settings.runs, mode: settings.mode },
            ),
            None => arguments_verdict(arguments, position, settings) is Err,
        },
        arguments[position] == "--mode"@ ==> match mode_named(arguments[position + 1]) {
            Some(mode) => arguments_verdict(arguments, position, settings) == arguments_verdict(
                arguments,
                position + 2,
                Settings { payloads_kib: settings.payloads_kib, runs: settings.runs, mode },
            ),
            None => arguments_verdict(arguments, position, settings) is Err,
        },
        arguments_verdict(arguments, arguments.len() as int, settings) is Ok <==> (
        settings.runs > 0 && settings.payloads_kib.len() > 0 && forall|i: int|
            0 <= i < settings.payloads_kib.len() ==> #[trigger] settings.payloads_kib[i] > 0),
        arguments_verdict(arguments, arguments.len() as int, settings) matches Ok(asked) ==> asked
            == (Asked::Run { settings }),
{
    reveal_strlit("--runs");
    reveal_strlit("--payloads-kib");
    reveal_strlit("--mode");
    assert("--runs"@[2] == 'r' && "--mode"@[2] == 'm');
    assert("--payloads-kib"@.len() != "--runs"@.len());
    assert("--payloads-kib"@.len() != "--mode"@.len());
    if settings.payloads_kib.contains(0) {
        let i = choose|i: int|
            0 <= i < settings.payloads_kib.len() && settings.payloads_kib[i] == 0;
        assert(settings.payloads_kib[i] == 0);
    } else if exists|i: int|
        0 <= i < settings.payloads_kib.len() && #[trigger] settings.payloads_kib[i] == 0 {
        assert(settings.payloads_kib.contains(0));
    }
}

/// The three modes are named `direct`, `rpc` and `both`, and nothing else names one.
pub proof fn modes_have_one_name(value: Seq<char>)
    ensures
        mode_named(value) == Some(Mode::Direct) <==> value == "direct"@,
        mode_named(value) == Some(Mode::Rpc) <==> value == "rpc"@,
        mode_named(value) == Some(Mode::Both) <==> value == "both"@,
{
    reveal_strlit("direct");
    reveal_strlit("rpc");
    reveal_strlit("both");
    assert("direct"@.len() != "rpc"@.len() && "direct"@.len() != "both"@.len() && "rpc"@.len()
        != "both"@.len());
}

/// Measured payloads repeat the bytes 0 to 250.
pub proof fn payloads_repeat_their_bytes(length: nat, i: int)
    requires
        0 <= i < length,
    ensures
        payload_bytes(length).len() == length,
        payload_bytes(length)[i] <= 250,
        i <= 250 ==> payload_bytes(length)[i] == i,
        i + 251 < length ==> payload_bytes(length)[i + 251] == payload_bytes(length)[i],
{
}

/// Arguments are read as they were given.
pub proof fn arguments_stand_for_themselves(arguments: Seq<String>)
    ensures
        texts(arguments).len() == arguments.len(),
        forall|i: int| 0 <= i < arguments.len() ==> #[trigger] texts(arguments)[i]
            == arguments[i]@,
{
}

} // verus!
