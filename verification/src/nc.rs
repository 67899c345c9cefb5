//! The serial protocol that a g-code sender speaks with the board: its fixed
//! messages, the machine state and the status report line.

use vstd::prelude::*;
use vstd::string::*;

verus! {

/// Ack response.
pub const ACK: &'static str = "ok\n";

/// Build information request.
pub const BUILD_INFO: &'static str = "$I";

/// Startup message request.
pub const STARTUP_SHOW: &'static str = "$Startup/Show";

/// Error list request.
pub const ERRORS_LIST: &'static str = "$Errors/List";

/// Alarm list request.
pub const ALARMS_LIST: &'static str = "$Alarms/List";

/// G-code modal state request.
pub const GCODE_MODES: &'static str = "$GCode/Modes";

/// Request to switch on verbose errors.
pub const VERBOSE_ERRORS: &'static str = "$verbose_errors=true";

/// Configuration dump request.
pub const CONFIG_DUMP: &'static str = "$Config/Dump";

/// Prefix of a jog command; the g-code follows it.
pub const JOG_PREFIX: &'static str = "$J=";

/// The single byte of a status report request, `?`.
pub const STATUS_REPORT_BYTE: u8 = 63;

/// Whether a received packet is a status report request: exactly the byte `?`.
pub fn is_status_report(frame: &[u8]) -> (b: bool)
    ensures
        b == (frame@ == seq![STATUS_REPORT_BYTE]),
{
    let r = frame.len() == 1 && frame[0] == STATUS_REPORT_BYTE;
    assert(r ==> frame@ =~= seq![STATUS_REPORT_BYTE]);
    r
}

/// State of the machine as reported to the sender.
#[derive(Debug, Clone, Copy, PartialEq, Eq, Structural)]
pub enum MachineState {
    Idle,
    Run,
    Hold,
    Jog,
    Alarm,
    Door,
}

/// The name under which a machine state is reported.
pub open spec fn state_name(state: MachineState) -> Seq<char> {
    match state {
        MachineState::Idle => "Idle"@,
        MachineState::Run => "Run"@,
        MachineState::Hold => "Hold"@,
        MachineState::Jog => "Jog"@,
        MachineState::Alarm => "Alarm"@,
        MachineState::Door => "Door"@,
    }
}

impl MachineState {
    /// The name under which this state is reported.
    pub fn name(&self) -> (s: &'static str)
        ensures
            s@ == state_name(*self),
    {
        match self {
            MachineState::Idle => "Idle",
            MachineState::Run => "Run",
            MachineState::Hold => "Hold",
            MachineState::Jog => "Jog",
            MachineState::Alarm => "Alarm",
            MachineState::Door => "Door",
        }
    }
}

/// Unit of measurement.
#[derive(Debug, Clone, Copy, PartialEq, Eq, Structural)]
pub enum Unit {
    /// Millimeters
    Mm,
    /// Degrees
    Deg,
}

/// The fields joined by commas.
pub open spec fn join_fields(fields: Seq<Seq<char>>) -> Seq<char>
    decreases fields.len(),
{
    if fields.len() == 0 {
        Seq::empty()
    } else if fields.len() == 1 {
        fields[0]
    } else {
        join_fields(fields.drop_last()) + ","@ + fields.last()
    }
}

/// The status report line for a machine state and its formatted coordinates.
pub open spec fn status_report(state: MachineState, fields: Seq<Seq<char>>) -> Seq<char> {
    "<"@ + state_name(state) + "|MPos:"@ + join_fields(fields) + ">"@
}

/// Frames a status report, `<State|MPos:x,y,...>`, from the machine state and the
/// coordinates, each already formatted.
pub fn status_report_line(state: MachineState, position: &Vec<String>) -> (s: String)
    ensures
        s@ == status_report(state, position@.map_values(|f: String| f@)),
{
    let ghost fields = position@.map_values(|f: String| f@);
    let mut s = String::new();
    s.append("<");
    s.append(state.name());
    s.append("|MPos:");
    let ghost head = s@;
    let n = position.len();
    let mut i: usize = 0;
    while i < n
        invariant
            n == position.len(),
            fields.len() == n,
            i <= n,
            forall|j: int| 0 <= j < n ==> fields[j] == position@[j]@,
            s@ == head + join_fields(fields.take(i as int)),
        decreases n - i,
    {
        if i > 0 {
            s.append(",");
        }
        s.append(position[i].as_str());
        i = i + 1;
        assert(fields.take(i as int).drop_last() =~= fields.take((i - 1) as int));
        if i == 1 {
            assert(fields.take(0) =~= Seq::<Seq<char>>::empty());
        }
    }
    assert(fields.take(n as int) =~= fields);
    s.append(">");
    s
}

/// The first character of a state's name.
pub open spec fn initial(state: MachineState) -> char {
    match state {
        MachineState::Idle => 'I',
        MachineState::Run => 'R',
        MachineState::Hold => 'H',
        MachineState::Jog => 'J',
        MachineState::Alarm => 'A',
        MachineState::Door => 'D',
    }
}

/// A status report opens with `<` and then the reported state's own name, as
/// `MachineState::name` gives it, followed by `|MPos:`; the character after `<` is
/// the name's initial, which differs between states, so two reports agree there
/// exactly when they report the same state.
pub proof fn law_status_report_names_its_state(
    st1: MachineState,
    f1: Seq<Seq<char>>,
    st2: MachineState,
    f2: Seq<Seq<char>>,
)
    ensures
        status_report(st1, f1)[0] == '<',
        status_report(st1, f1).subrange(1, 1 + state_name(st1).len() as int) == state_name(st1),
        status_report(st1, f1).subrange(
            1 + state_name(st1).len() as int,
            7 + state_name(st1).len() as int,
        ) == "|MPos:"@,
        status_report(st1, f1)[1] == initial(st1),
        (status_report(st1, f1)[1] == status_report(st2, f2)[1]) <==> (st1 == st2),
        st1 == MachineState::Run ==> state_name(st1) == seq!['R', 'u', 'n'],
{
    reveal_strlit("<");
    reveal_strlit("|MPos:");
    reveal_strlit(">");
    reveal_strlit("Idle");
    reveal_strlit("Run");
    reveal_strlit("Hold");
    reveal_strlit("Jog");
    reveal_strlit("Alarm");
    reveal_strlit("Door");
    let r1 = status_report(st1, f1);
    let n1 = state_name(st1);
    assert(r1.subrange(1, 1 + n1.len() as int) =~= n1);
    assert(r1.subrange(1 + n1.len() as int, 7 + n1.len() as int) =~= "|MPos:"@);
    assert(n1[0] == initial(st1));
    assert(r1[1] == n1[0]);
    let r2 = status_report(st2, f2);
    let n2 = state_name(st2);
    assert(n2[0] == initial(st2));
    assert(r2[1] == n2[0]);
    assert(st1 == MachineState::Run ==> n1 =~= seq!['R', 'u', 'n']);
}

} // verus!
