//! What the board does with each packet that arrives on its serial line: status
//! report requests, line framing, console commands and the replies to them.

use vstd::prelude::*;
use vstd::slice::*;
use vstd::string::*;
use vstd::utf8::*;

use crate::line_reader::{feed_result, feed_state, LineReader, Overflow};
use crate::nc::{
    is_status_report, ALARMS_LIST, BUILD_INFO, CONFIG_DUMP, ERRORS_LIST, GCODE_MODES, JOG_PREFIX,
    STARTUP_SHOW, STATUS_REPORT_BYTE, VERBOSE_ERRORS, ACK,
};

verus! {

/// Number of bytes of one line that the board buffers.
pub const LINE_CAPACITY: usize = 1024;

/// First line of the reply to a build information request.
pub const VERSION_INFO: &'static str = "[VER:3.4 FluidNC v3.3.0:]\r\n";

/// Second line of the reply to a build information request.
pub const OPTIONS_INFO: &'static str = "[OPT:N,1,1024]\r\n";

/// Reply to a startup message request.
pub const STARTUP_MESSAGE: &'static str = "[MSG:INFO: UMI RTX]\r\n";

/// Reply to a g-code modal state request.
pub const GCODE_MODES_REPORT: &'static str = "[GC:G0 G54 G17 G21 G90 G94 M5 M9 T0 F0 S0]\n";

/// The machine configuration sent on a configuration dump request.
pub const CONFIG: &'static str = "board: RTX driver\nname: UMI RTX\nmeta: Robot Arm\naxes:\n  x:\n    max_travel_mm: 180.0\n  y:\n    max_travel_mm: 180.0\n  z:\n    max_travel_mm: 180.0\n  a:\n    max_travel_mm: 180.0\n  b:\n    max_travel_mm: 180.0\n  c:\n    max_travel_mm: 180.0\n  d:\n    max_travel_mm: 180.0\n";

/// `core::str::from_utf8`, whose documentation states that it returns the string
/// slice when the bytes are valid UTF-8 and an error otherwise. The contract claims
/// exactly that: a result iff the bytes are valid UTF-8, whose bytes are the input.
#[verifier::external_body]
fn str_from_utf8(bytes: &[u8]) -> (s: Option<&str>)
    ensures
        s is Some <==> valid_utf8(bytes@),
        s matches Some(text) ==> text.spec_bytes() == bytes@,
{
    core::str::from_utf8(bytes).ok()
}

/// A complete line received from the sender.
pub enum Request<'a> {
    /// An empty line.
    Empty,
    /// `$I`
    BuildInfo,
    /// `$Errors/List`
    ErrorsList,
    /// `$Alarms/List`
    AlarmsList,
    /// `$Startup/Show`
    StartupShow,
    /// `$GCode/Modes`
    GcodeModes,
    /// `$verbose_errors=true`
    VerboseErrors,
    /// `$Config/Dump`
    ConfigDump,
    /// Any other line: g-code, with a jog prefix removed.
    Gcode(&'a str),
}

/// Whether a line is one of the console commands that get a fixed reply.
pub open spec fn is_console_command(line: Seq<u8>) -> bool {
    ||| line.len() == 0
    ||| line == BUILD_INFO.spec_bytes()
    ||| line == ERRORS_LIST.spec_bytes()
    ||| line == ALARMS_LIST.spec_bytes()
    ||| line == STARTUP_SHOW.spec_bytes()
    ||| line == GCODE_MODES.spec_bytes()
    ||| line == VERBOSE_ERRORS.spec_bytes()
    ||| line == CONFIG_DUMP.spec_bytes()
}

/// The g-code in a line: the line without a leading jog prefix.
pub open spec fn jog_payload(line: Seq<u8>) -> Seq<u8> {
    let p = JOG_PREFIX.spec_bytes();
    if line.len() >= p.len() && line.take(p.len() as int) == p {
        line.skip(p.len() as int)
    } else {
        line
    }
}

/// Whether `r` is the request that the (valid UTF-8) line `line` makes.
pub open spec fn request_of(line: Seq<u8>, r: Request) -> bool {
    match r {
        Request::Empty => line.len() == 0,
        Request::BuildInfo => line == BUILD_INFO.spec_bytes(),
        Request::ErrorsList => line == ERRORS_LIST.spec_bytes(),
        Request::AlarmsList => line == ALARMS_LIST.spec_bytes(),
        Request::StartupShow => line == STARTUP_SHOW.spec_bytes(),
        Request::GcodeModes => line == GCODE_MODES.spec_bytes(),
        Request::VerboseErrors => line == VERBOSE_ERRORS.spec_bytes(),
        Request::ConfigDump => line == CONFIG_DUMP.spec_bytes(),
        Request::Gcode(g) => !is_console_command(line) && g.spec_bytes() == jog_payload(line),
    }
}

fn bytes_eq(a: &[u8], b: &[u8]) -> (r: bool)
    ensures
        r == (a@ == b@),
{
    if a.len() != b.len() {
        return false;
    }
    let mut i: usize = 0;
    while i < a.len()
        invariant
            a.len() == b.len(),
            i <= a.len(),
            forall|j: int| 0 <= j < i ==> a@[j] == b@[j],
        decreases a.len() - i,
    {
        if a[i] != b[i] {
            return false;
        }
        i = i + 1;
    }
    assert(a@ =~= b@);
    true
}

fn starts_with(a: &[u8], p: &[u8]) -> (r: bool)
    ensures
        r == (a@.len() >= p@.len() && a@.take(p@.len() as int) == p@),
{
    if a.len() < p.len() {
        return false;
    }
    let mut i: usize = 0;
    while i < p.len()
        invariant
            a.len() >= p.len(),
            i <= p.len(),
            forall|j: int| 0 <= j < i ==> a@[j] == p@[j],
        decreases p.len() - i,
    {
        if a[i] != p[i] {
            assert(a@.take(p@.len() as int)[i as int] != p@[i as int]);
            return false;
        }
        i = i + 1;
    }
    assert(a@.take(p@.len() as int) =~= p@);
    true
}

/// In valid UTF-8, the end of a run of ASCII bytes at the start is a character boundary.
proof fn lemma_ascii_prefix_boundary(bytes: Seq<u8>, k: int)
    requires
        valid_utf8(bytes),
        0 <= k <= bytes.len(),
        forall|j: int| 0 <= j < k ==> bytes[j] <= 0x7f,
    ensures
        is_char_boundary(bytes, k),
    decreases k,
{
    if k > 0 {
        let rest = pop_first_scalar(bytes);
        assert(length_of_first_scalar(bytes) == 1);
        assert(rest =~= bytes.subrange(1, bytes.len() as int));
        assert forall|j: int| 0 <= j < k - 1 implies rest[j] <= 0x7f by {
            assert(rest[j] == bytes[j + 1]);
        }
        lemma_ascii_prefix_boundary(rest, k - 1);
    }
}

/// The bytes of the jog prefix are ASCII.
proof fn lemma_jog_prefix_ascii()
    ensures
        JOG_PREFIX.spec_bytes().len() == 3,
        forall|j: int| 0 <= j < 3 ==> JOG_PREFIX.spec_bytes()[j] <= 0x7f,
        JOG_PREFIX.spec_bytes() == seq![36u8, 74u8, 61u8],
{
    reveal_strlit("$J=");
    assert(is_ascii(JOG_PREFIX));
    is_ascii_spec_bytes(JOG_PREFIX);
}

/// Classifies a complete line. `None` when the line is not UTF-8.
pub fn parse_request<'a>(line: &'a [u8]) -> (r: Option<Request<'a>>)
    ensures
        r is None <==> !valid_utf8(line@),
        r matches Some(req) ==> request_of(line@, req),
{
    if str_from_utf8(line).is_none() {
        return None;
    }
    if line.len() == 0 {
        return Some(Request::Empty);
    }
    if bytes_eq(line, BUILD_INFO.as_bytes()) {
        return Some(Request::BuildInfo);
    }
    if bytes_eq(line, ERRORS_LIST.as_bytes()) {
        return Some(Request::ErrorsList);
    }
    if bytes_eq(line, ALARMS_LIST.as_bytes()) {
        return Some(Request::AlarmsList);
    }
    if bytes_eq(line, STARTUP_SHOW.as_bytes()) {
        return Some(Request::StartupShow);
    }
    if bytes_eq(line, GCODE_MODES.as_bytes()) {
        return Some(Request::GcodeModes);
    }
    if bytes_eq(line, VERBOSE_ERRORS.as_bytes()) {
        return Some(Request::VerboseErrors);
    }
    if bytes_eq(line, CONFIG_DUMP.as_bytes()) {
        return Some(Request::ConfigDump);
    }
    let prefix = JOG_PREFIX.as_bytes();
    let payload = if starts_with(line, prefix) {
        proof {
            lemma_jog_prefix_ascii();
            assert forall|j: int| 0 <= j < 3 implies line@[j] <= 0x7f by {
                assert(line@[j] == line@.take(3)[j]);
            }
            lemma_ascii_prefix_boundary(line@, 3);
            valid_utf8_split(line@, 3);
        }
        let p = slice_subrange(line, prefix.len(), line.len());
        assert(p@ =~= line@.skip(3));
        p
    } else {
        line
    };
    match str_from_utf8(payload) {
        Some(g) => Some(Request::Gcode(g)),
        None => None,
    }
}

/// One reply to the sender.
pub enum Reply {
    /// Sent as a single packet.
    Packet(&'static str),
    /// Sent in packets of the endpoint's maximum size.
    Chunked(&'static str),
}

/// The replies to a request, in the order they are sent.
pub open spec fn replies_to(r: Request) -> Seq<Reply> {
    match r {
        Request::BuildInfo => seq![
            Reply::Packet(VERSION_INFO),
            Reply::Packet(OPTIONS_INFO),
            Reply::Packet(ACK),
        ],
        Request::StartupShow => seq![Reply::Packet(STARTUP_MESSAGE), Reply::Packet(ACK)],
        Request::GcodeModes => seq![Reply::Packet(GCODE_MODES_REPORT), Reply::Packet(ACK)],
        Request::ConfigDump => seq![Reply::Chunked(CONFIG), Reply::Packet(ACK)],
        _ => seq![Reply::Packet(ACK)],
    }
}

/// The replies to a request, in the order they are sent. A g-code line is
/// acknowledged once it has been interpreted.
pub fn replies(r: &Request) -> (v: Vec<Reply>)
    ensures
        v@ == replies_to(*r),
{
    let mut v: Vec<Reply> = Vec::new();
    match r {
        Request::BuildInfo => {
            v.push(Reply::Packet(VERSION_INFO));
            v.push(Reply::Packet(OPTIONS_INFO));
        },
        Request::StartupShow => {
            v.push(Reply::Packet(STARTUP_MESSAGE));
        },
        Request::GcodeModes => {
            v.push(Reply::Packet(GCODE_MODES_REPORT));
        },
        Request::ConfigDump => {
            v.push(Reply::Chunked(CONFIG));
        },
        _ => {},
    }
    v.push(Reply::Packet(ACK));
    v
}

/// What a received packet calls for.
pub enum Event<'a> {
    /// The sender asked for a status report.
    StatusReport,
    /// The packet did not complete a line.
    Incomplete,
    /// The line grew past the buffer.
    Overflow(Overflow),
    /// The completed line is not UTF-8.
    InvalidUtf8,
    /// The completed line makes this request.
    Request(Request<'a>),
}

/// Handles one packet received from the sender: a status report request is answered
/// at once; any other packet goes to the line buffer, and a completed line is
/// classified.
pub fn on_frame<'a, const N: usize>(lines: &'a mut LineReader<N>, frame: &[u8]) -> (e: Event<'a>)
    ensures
        frame@ == seq![STATUS_REPORT_BYTE] ==> e is StatusReport && final(lines)@ == old(lines)@,
        frame@ != seq![STATUS_REPORT_BYTE] ==> {
            &&& final(lines)@ == feed_state(old(lines)@, frame@, N as nat)
            &&& match feed_result(old(lines)@, frame@, N as nat) {
                Err(o) => e == Event::Overflow(o),
                Ok(None) => e is Incomplete,
                Ok(Some(line)) => if valid_utf8(line) {
                    e matches Event::Request(req) && request_of(line, req)
                } else {
                    e is InvalidUtf8
                },
            }
        },
{
    if is_status_report(frame) {
        return Event::StatusReport;
    }
    match lines.feed(frame) {
        Err(o) => Event::Overflow(o),
        Ok(None) => Event::Incomplete,
        Ok(Some(line)) => match parse_request(line) {
            Some(req) => Event::Request(req),
            None => Event::InvalidUtf8,
        },
    }
}

/// Every request is answered, and the last reply is the acknowledgement.
pub proof fn law_every_request_acknowledged(r: Request)
    ensures
        replies_to(r).len() >= 1,
        replies_to(r).last() == Reply::Packet(ACK),
{
}

/// The bytes of a console command, read as ASCII characters.
proof fn lemma_command_bytes(c: &str)
    requires
        is_ascii(c),
    ensures
        c.spec_bytes() == Seq::new(c@.len(), |i| c@[i] as u8),
{
    is_ascii_spec_bytes(c);
}

/// The console commands are distinct and none of them is empty.
proof fn lemma_commands_distinct()
    ensures
        BUILD_INFO.spec_bytes().len() == 2,
        ERRORS_LIST.spec_bytes().len() == 12,
        ALARMS_LIST.spec_bytes().len() == 12,
        STARTUP_SHOW.spec_bytes().len() == 13,
        GCODE_MODES.spec_bytes().len() == 12,
        VERBOSE_ERRORS.spec_bytes().len() == 20,
        CONFIG_DUMP.spec_bytes().len() == 12,
        BUILD_INFO.spec_bytes()[1] == 73,
        ERRORS_LIST.spec_bytes()[1] == 69,
        ALARMS_LIST.spec_bytes()[1] == 65,
        STARTUP_SHOW.spec_bytes()[1] == 83,
        GCODE_MODES.spec_bytes()[1] == 71,
        VERBOSE_ERRORS.spec_bytes()[1] == 118,
        CONFIG_DUMP.spec_bytes()[1] == 67,
{
    reveal_strlit("$I");
    reveal_strlit("$Errors/List");
    reveal_strlit("$Alarms/List");
    reveal_strlit("$Startup/Show");
    reveal_strlit("$GCode/Modes");
    reveal_strlit("$verbose_errors=true");
    reveal_strlit("$Config/Dump");
    assert(is_ascii(BUILD_INFO));
    assert(is_ascii(ERRORS_LIST));
    assert(is_ascii(ALARMS_LIST));
    assert(is_ascii(STARTUP_SHOW));
    assert(is_ascii(GCODE_MODES));
    assert(is_ascii(VERBOSE_ERRORS));
    assert(is_ascii(CONFIG_DUMP));
    lemma_command_bytes(BUILD_INFO);
    lemma_command_bytes(ERRORS_LIST);
    lemma_command_bytes(ALARMS_LIST);
    lemma_command_bytes(STARTUP_SHOW);
    lemma_command_bytes(GCODE_MODES);
    lemma_command_bytes(VERBOSE_ERRORS);
    lemma_command_bytes(CONFIG_DUMP);
}

/// A line makes at most one request: two requests that the same line makes are of
/// the same kind, and for g-code carry the same text.
pub proof fn law_request_unique(line: Seq<u8>, r1: Request, r2: Request)
    requires
        request_of(line, r1),
        request_of(line, r2),
    ensures
        r1 matches Request::Gcode(g1) ==> (r2 matches Request::Gcode(g2) && g1.spec_bytes()
            == g2.spec_bytes()),
        (r1 is Empty) == (r2 is Empty),
        (r1 is BuildInfo) == (r2 is BuildInfo),
        (r1 is ErrorsList) == (r2 is ErrorsList),
        (r1 is AlarmsList) == (r2 is AlarmsList),
        (r1 is StartupShow) == (r2 is StartupShow),
        (r1 is GcodeModes) == (r2 is GcodeModes),
        (r1 is VerboseErrors) == (r2 is VerboseErrors),
        (r1 is ConfigDump) == (r2 is ConfigDump),
{
    lemma_commands_distinct();
}

/// A line that starts with the jog prefix `$J=` is g-code, whatever follows and
/// however long it is, and the g-code is exactly what follows the prefix.
pub proof fn law_jog_line_is_its_gcode(rest: Seq<u8>, r: Request)
    requires
        request_of(seq![36u8, 74u8, 61u8] + rest, r),
    ensures
        r matches Request::Gcode(g) && g.spec_bytes() == rest,
{
    let line = seq![36u8, 74u8, 61u8] + rest;
    lemma_commands_distinct();
    lemma_jog_prefix_ascii();
    assert(line[1] == 74u8);
    assert(line.take(3) =~= seq![36u8, 74u8, 61u8]);
    assert(line.skip(3) =~= rest);
}

/// A line that is neither a console command nor starts with the jog prefix is
/// passed on as g-code unchanged.
pub proof fn law_other_line_is_gcode_unchanged(line: Seq<u8>, g: &str)
    requires
        request_of(line, Request::Gcode(g)),
        !(line.len() >= 3 && line.take(3) == seq![36u8, 74u8, 61u8]),
    ensures
        g.spec_bytes() == line,
{
    lemma_jog_prefix_ascii();
}

} // verus!
