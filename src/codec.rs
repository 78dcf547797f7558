use vstd::prelude::*;

use crate::error::Error;
use crate::protocol::{
    action_key, action_of_bytes, action_selector, command_code, command_of_code,
    lemma_action_bytes_round_trip, lemma_command_code_round_trip, report_mode_code,
    report_mode_of_code, ActionMode, Command, ReportMode,
};
use crate::report::{RawReport, Report, SummaryReport};

verus! {

/// Every frame on the wire is this many bytes wide.
pub const FRAME_LEN: usize = 16;

/// The 8-bit wraparound sum of a byte sequence.
pub open spec fn wrap_sum(s: Seq<u8>) -> u8
    decreases s.len(),
{
    if s.len() == 0 {
        0
    } else {
        ((wrap_sum(s.drop_last()) + s.last()) % 256) as u8
    }
}

/// The 8-bit wraparound sum of `data`.
pub fn sum_slice(data: &[u8]) -> (r: u8)
    ensures
        r == wrap_sum(data@),
{
    let mut acc: u8 = 0;
    let mut i: usize = 0;
    while i < data.len()
        invariant
            i <= data@.len(),
            acc == wrap_sum(data@.subrange(0, i as int)),
        decreases data@.len() - i,
    {
        assert(data@.subrange(0, i + 1).drop_last() == data@.subrange(0, i as int));
        acc = acc.wrapping_add(data[i]);
        i += 1;
    }
    assert(data@.subrange(0, data@.len() as int) == data@);
    acc
}

/// The frame that carries `command` with the argument bytes `a0` and `a1`:
/// the command code, the two arguments, twelve zero bytes, and the wraparound
/// sum of the first three bytes as checksum.
pub open spec fn frame_of(command: Command, a0: u8, a1: u8) -> Seq<u8> {
    Seq::new(
        16,
        |i: int|
            if i == 0 {
                command_code(command)
            } else if i == 1 {
                a0
            } else if i == 2 {
                a1
            } else if i == 15 {
                wrap_sum(seq![command_code(command), a0, a1])
            } else {
                0u8
            },
    )
}

/// The checksum of a frame: the wraparound sum of its bytes 0 to 14.
pub open spec fn frame_checksum(f: Seq<u8>) -> u8 {
    wrap_sum(f.subrange(0, 15))
}

/// Appending zero bytes leaves a wraparound sum unchanged.
pub proof fn lemma_wrap_sum_zero_padding(s: Seq<u8>, n: nat)
    ensures
        wrap_sum(s + Seq::new(n, |i: int| 0u8)) == wrap_sum(s),
    decreases n,
{
    let z = Seq::new(n, |i: int| 0u8);
    if n > 0 {
        let z1 = Seq::new((n - 1) as nat, |i: int| 0u8);
        assert((s + z).drop_last() == s + z1);
        lemma_wrap_sum_zero_padding(s, (n - 1) as nat);
    } else {
        assert(s + z == s);
    }
}

/// The checksum byte of an encoded frame equals the checksum of its first
/// fifteen bytes, although only the first three are summed.
pub proof fn lemma_frame_of_checksum(command: Command, a0: u8, a1: u8)
    ensures
        frame_of(command, a0, a1).len() == 16,
        frame_of(command, a0, a1)[15] == frame_checksum(frame_of(command, a0, a1)),
{
    let f = frame_of(command, a0, a1);
    let head = seq![command_code(command), a0, a1];
    assert(f.subrange(0, 15) == head + Seq::new(12, |i: int| 0u8));
    lemma_wrap_sum_zero_padding(head, 12);
}

/// The wraparound sum of three bytes.
fn sum3(a: u8, b: u8, c: u8) -> (r: u8)
    ensures
        r == wrap_sum(seq![a, b, c]),
{
    proof {
        let s = seq![a, b, c];
        assert(s.drop_last() == seq![a, b]);
        assert(s.drop_last().drop_last() == seq![a]);
        assert(s.drop_last().drop_last().drop_last() == Seq::<u8>::empty());
        reveal_with_fuel(wrap_sum, 4);
    }
    a.wrapping_add(b).wrapping_add(c)
}

/// Encodes `command` with two argument bytes into a frame.
pub fn encode(command: Command, args: [u8; 2]) -> (r: [u8; 16])
    ensures
        r@ == frame_of(command, args[0], args[1]),
{
    let code = command.code();
    let checksum = sum3(code, args[0], args[1]);
    let r = [code, args[0], args[1], 0, 0, 0, 0, 0, 0, 0, 0, 0, 0, 0, 0, checksum];
    assert(r@ == frame_of(command, args[0], args[1]));
    r
}

/// What the header and checksum of a 16-byte frame say: its command, or why
/// the frame is refused. An unknown command code is reported before a bad
/// checksum.
pub open spec fn frame_command(f: Seq<u8>) -> Result<Command, Error> {
    match command_of_code(f[0]) {
        None => Err(Error::InvalidCommand(f[0])),
        Some(c) => if f[15] != frame_checksum(f) {
            Err(Error::WrongChecksum(c, f[15], frame_checksum(f)))
        } else {
            Ok(c)
        },
    }
}

/// Checks the command code and checksum of a frame, and returns its command
/// with the fourteen bytes that follow the code.
pub fn decode(frame: &[u8; 16]) -> (r: Result<(Command, [u8; 14]), Error>)
    ensures
        match r {
            Ok((c, payload)) => frame_command(frame@) == Ok::<Command, Error>(c) && payload@
                == frame@.subrange(1, 15),
            Err(e) => frame_command(frame@) == Err::<Command, Error>(e),
        },
{
    let command = match Command::try_from(frame[0]) {
        Ok(c) => c,
        Err(_) => {
            return Err(Error::InvalidCommand(frame[0]));
        },
    };
    let calculated = sum_slice(&frame[0..15]);
    let received = frame[15];
    if received != calculated {
        return Err(Error::WrongChecksum(command, received, calculated));
    }
    let payload = [
        frame[1],
        frame[2],
        frame[3],
        frame[4],
        frame[5],
        frame[6],
        frame[7],
        frame[8],
        frame[9],
        frame[10],
        frame[11],
        frame[12],
        frame[13],
        frame[14],
    ];
    assert(payload@ == frame@.subrange(1, 15));
    Ok((command, payload))
}

/// The unsigned number that a byte sequence spells in little-endian order.
pub open spec fn le_value(s: Seq<u8>) -> nat
    decreases s.len(),
{
    if s.len() == 0 {
        0
    } else {
        s[0] as nat + 256 * le_value(s.drop_first())
    }
}

/// 256 to the power `n`.
pub open spec fn pow256(n: nat) -> nat
    decreases n,
{
    if n == 0 {
        1
    } else {
        256 * pow256((n - 1) as nat)
    }
}

/// The little-endian `u16` of two bytes.
pub open spec fn le_u16(b0: u8, b1: u8) -> u16 {
    (b0 + 256 * b1) as u16
}

/// The `i16` whose two's-complement bit pattern is `u`.
pub open spec fn i16_of_bits(u: u16) -> i16 {
    if u < 0x8000 {
        u as i16
    } else {
        (u - 0x10000) as i16
    }
}

/// The two's-complement bit pattern of `v`.
pub open spec fn bits_of_i16(v: i16) -> u16 {
    if v >= 0 {
        v as u16
    } else {
        (v + 0x10000) as u16
    }
}

/// The low byte of a `u16`.
pub open spec fn low_byte(v: u16) -> u8 {
    (v % 256) as u8
}

/// The high byte of a `u16`.
pub open spec fn high_byte(v: u16) -> u8 {
    (v / 256) as u8
}

/// Reads the little-endian `u16` at offset `at` of a payload.
fn read_u16(payload: &[u8; 14], at: usize) -> (r: u16)
    requires
        at + 2 <= 14,
    ensures
        r == le_u16(payload@[at as int], payload@[at + 1]),
{
    payload[at] as u16 + payload[at + 1] as u16 * 256
}

/// Reads the little-endian `u64` at offset `at` of a payload.
fn read_u64(payload: &[u8; 14], at: usize) -> (r: u64)
    requires
        at + 8 <= 14,
    ensures
        r == le_value(payload@.subrange(at as int, at + 8)),
{
    let mut acc: u64 = 0;
    let mut i: usize = 8;
    while i > 0
        invariant
            i <= 8,
            at + 8 <= 14,
            acc == le_value(payload@.subrange(at + i, at + 8)),
            acc < pow256((8 - i) as nat),
        decreases i,
    {
        i -= 1;
        let b = payload[at + i];
        proof {
            let s = payload@.subrange(at + i, at + 8);
            assert(s.drop_first() == payload@.subrange(at + i + 1, at + 8));
            lemma_pow256_le((8 - i) as nat, 8);
            reveal_with_fuel(pow256, 9);
            assert(pow256(8) == 0x1_0000_0000_0000_0000);
            assert(pow256((8 - i) as nat) == 256 * pow256((7 - i) as nat));
            assert(acc * 256 + b < pow256((8 - i) as nat)) by (nonlinear_arith)
                requires
                    acc < pow256((7 - i) as nat),
                    b < 256,
                    pow256((8 - i) as nat) == 256 * pow256((7 - i) as nat),
            ;
        }
        acc = acc * 256 + b as u64;
    }
    acc
}

/// Powers of 256 grow with the exponent.
proof fn lemma_pow256_le(m: nat, n: nat)
    requires
        m <= n,
    ensures
        pow256(m) <= pow256(n),
    decreases n,
{
    if m < n {
        lemma_pow256_le(m, (n - 1) as nat);
    }
}

/// The report that a payload means for `command`, or why it means none.
pub open spec fn report_of(command: Command, p: Seq<u8>) -> Result<Report, Error> {
    match command {
        Command::ReportRaw => Ok(
            Report::Raw(
                RawReport {
                    timestamp: le_value(p.subrange(0, 8)) as u64,
                    brightness: le_u16(p[8], p[9]),
                    trigger: p[10] == 1,
                },
            ),
        ),
        Command::ReportSummary => Ok(
            Report::Summary(
                SummaryReport {
                    delay: le_value(p.subrange(0, 8)) as u64,
                    threshold: le_u16(p[8], p[9]),
                },
            ),
        ),
        Command::SetPollRate | Command::GetPollRate => Ok(Report::PollRate(le_u16(p[0], p[1]))),
        Command::SetReportMode | Command::GetReportMode => match report_mode_of_code(p[0]) {
            Some(m) => Ok(Report::ReportMode(m)),
            None => Err(Error::InvalidSetting(command, [p[0], p[1]])),
        },
        Command::SetThreshold | Command::GetThreshold => Ok(
            Report::Threshold(i16_of_bits(le_u16(p[0], p[1]))),
        ),
        Command::SetAction | Command::GetAction => if p[0] > 1 {
            Err(Error::InvalidSetting(command, [p[0], p[1]]))
        } else {
            match action_of_bytes(p[0], p[1]) {
                Ok(a) => Ok(Report::Action(a)),
                Err(e) => Err(e),
            }
        },
        Command::ManualTrigger => Ok(Report::ManualTrigger),
    }
}

/// Turns the payload of a frame with `command` into a report.
pub fn interpret(command: Command, payload: &[u8; 14]) -> (r: Result<Report, Error>)
    ensures
        r == report_of(command, payload@),
{
    match command {
        Command::ReportRaw => Ok(
            Report::Raw(
                RawReport {
                    timestamp: read_u64(payload, 0),
                    brightness: read_u16(payload, 8),
                    trigger: payload[10] == 1,
                },
            ),
        ),
        Command::ReportSummary => Ok(
            Report::Summary(
                SummaryReport { delay: read_u64(payload, 0), threshold: read_u16(payload, 8) },
            ),
        ),
        Command::SetPollRate | Command::GetPollRate => Ok(Report::PollRate(read_u16(payload, 0))),
        Command::SetReportMode | Command::GetReportMode => match ReportMode::try_from(payload[0]) {
            Ok(m) => Ok(Report::ReportMode(m)),
            Err(_) => Err(Error::InvalidSetting(command, [payload[0], payload[1]])),
        },
        Command::SetThreshold | Command::GetThreshold => {
            let bits = read_u16(payload, 0);
            let value: i16 = if bits < 0x8000 {
                bits as i16
            } else {
                (bits as i32 - 0x10000) as i16
            };
            Ok(Report::Threshold(value))
        },
        Command::SetAction | Command::GetAction => {
            if payload[0] > 1 {
                Err(Error::InvalidSetting(command, [payload[0], payload[1]]))
            } else {
                match ActionMode::try_from(payload[0], payload[1]) {
                    Ok(a) => Ok(Report::Action(a)),
                    Err(e) => Err(e),
                }
            }
        },
        Command::ManualTrigger => Ok(Report::ManualTrigger),
    }
}

/// The report that a whole 16-byte frame carries, or why it carries none.
pub open spec fn frame_report(f: Seq<u8>) -> Result<Report, Error> {
    match frame_command(f) {
        Ok(c) => report_of(c, f.subrange(1, 15)),
        Err(e) => Err(e),
    }
}

/// Decodes a frame and interprets its payload.
pub fn parse_frame(frame: &[u8; 16]) -> (r: Result<Report, Error>)
    ensures
        r == frame_report(frame@),
{
    match decode(frame) {
        Ok((command, payload)) => interpret(command, &payload),
        Err(e) => Err(e),
    }
}

/// The frame that sets the poll rate to `hz` (in hertz).
pub fn set_poll_rate_frame(hz: u16) -> (r: [u8; 16])
    ensures
        r@ == frame_of(Command::SetPollRate, low_byte(hz), high_byte(hz)),
{
    encode(Command::SetPollRate, [(hz % 256) as u8, (hz / 256) as u8])
}

/// The frame that sets the brightness threshold to `threshold`.
pub fn set_threshold_frame(threshold: i16) -> (r: [u8; 16])
    ensures
        r@ == frame_of(
            Command::SetThreshold,
            low_byte(bits_of_i16(threshold)),
            high_byte(bits_of_i16(threshold)),
        ),
{
    let bits: u16 = if threshold >= 0 {
        threshold as u16
    } else {
        (threshold as i32 + 0x10000) as u16
    };
    encode(Command::SetThreshold, [(bits % 256) as u8, (bits / 256) as u8])
}

/// The frame that selects which kind of report the device streams.
pub fn set_report_mode_frame(mode: ReportMode) -> (r: [u8; 16])
    ensures
        r@ == frame_of(Command::SetReportMode, report_mode_code(mode), 0),
{
    encode(Command::SetReportMode, [mode.code(), 0])
}

/// The frame that selects what the device presses when it triggers.
pub fn set_action_frame(action: ActionMode) -> (r: [u8; 16])
    ensures
        r@ == frame_of(Command::SetAction, action_selector(action), action_key(action)),
{
    encode(Command::SetAction, [u8::from(action), action.get_key()])
}

/// What every encoded frame has in common: it is accepted with its own
/// command, and its payload starts with the two argument bytes followed by
/// zeros.
proof fn lemma_frame_of_decodes(command: Command, a0: u8, a1: u8)
    ensures
        frame_command(frame_of(command, a0, a1)) == Ok::<Command, Error>(command),
        frame_of(command, a0, a1).subrange(1, 15)[0] == a0,
        frame_of(command, a0, a1).subrange(1, 15)[1] == a1,
{
    lemma_frame_of_checksum(command, a0, a1);
    lemma_command_code_round_trip(command);
}

/// A poll rate survives encoding and decoding, whether it travels under the
/// set or the get command.
pub proof fn lemma_poll_rate_round_trip(command: Command, hz: u16)
    requires
        command == Command::SetPollRate || command == Command::GetPollRate,
    ensures
        frame_report(frame_of(command, low_byte(hz), high_byte(hz))) == Ok::<Report, Error>(
            Report::PollRate(hz),
        ),
{
    lemma_frame_of_decodes(command, low_byte(hz), high_byte(hz));
}

/// A threshold survives encoding and decoding, whether it travels under the
/// set or the get command.
pub proof fn lemma_threshold_round_trip(command: Command, threshold: i16)
    requires
        command == Command::SetThreshold || command == Command::GetThreshold,
    ensures
        frame_report(
            frame_of(
                command,
                low_byte(bits_of_i16(threshold)),
                high_byte(bits_of_i16(threshold)),
            ),
        ) == Ok::<Report, Error>(Report::Threshold(threshold)),
{
    let bits = bits_of_i16(threshold);
    lemma_frame_of_decodes(command, low_byte(bits), high_byte(bits));
    assert(le_u16(low_byte(bits), high_byte(bits)) == bits);
}

/// A report mode survives encoding and decoding, whether it travels under the
/// set or the get command.
pub proof fn lemma_report_mode_round_trip(command: Command, mode: ReportMode)
    requires
        command == Command::SetReportMode || command == Command::GetReportMode,
    ensures
        frame_report(frame_of(command, report_mode_code(mode), 0)) == Ok::<Report, Error>(
            Report::ReportMode(mode),
        ),
{
    lemma_frame_of_decodes(command, report_mode_code(mode), 0);
}

/// An action survives encoding and decoding, whether it travels under the set
/// or the get command.
pub proof fn lemma_action_round_trip(command: Command, action: ActionMode)
    requires
        command == Command::SetAction || command == Command::GetAction,
    ensures
        frame_report(frame_of(command, action_selector(action), action_key(action)))
            == Ok::<Report, Error>(Report::Action(action)),
{
    lemma_frame_of_decodes(command, action_selector(action), action_key(action));
    lemma_action_bytes_round_trip(action);
}

/// A frame with a known command code is accepted exactly when its last byte
/// equals the wraparound sum of bytes 0 to 14; otherwise it is refused with
/// the command, the received and the calculated checksum. Fifteen zero bytes
/// sum to zero.
pub proof fn lemma_checksum_enforced(f: Seq<u8>)
    requires
        f.len() == 16,
        command_of_code(f[0]) is Some,
    ensures
        frame_command(f) is Ok <==> f[15] == wrap_sum(f.subrange(0, 15)),
        f[15] != wrap_sum(f.subrange(0, 15)) ==> frame_command(f) == Err::<Command, Error>(
            Error::WrongChecksum(command_of_code(f[0]).unwrap(), f[15], wrap_sum(f.subrange(0, 15))),
        ),
        f.subrange(0, 15) == Seq::new(15, |i: int| 0u8) ==> wrap_sum(f.subrange(0, 15)) == 0,
{
    let z = Seq::new(15, |i: int| 0u8);
    lemma_wrap_sum_zero_padding(Seq::<u8>::empty(), 15);
    assert(Seq::<u8>::empty() + z == z);
}

/// A get or set action frame whose selector byte is neither 0 nor 1 is an
/// invalid setting, whatever its key byte.
pub proof fn lemma_action_selector_out_of_range(command: Command, p: Seq<u8>)
    requires
        command == Command::SetAction || command == Command::GetAction,
        p.len() == 14,
        p[0] > 1,
    ensures
        report_of(command, p) == Err::<Report, Error>(Error::InvalidSetting(command, [p[0], p[1]])),
{
}

} // verus!
