//! The wire protocol of the LibreHardwareMonitor wrapper: commands are sent
//! as 4-byte little-endian codes, integer arguments likewise, and a
//! connection is accepted after a fixed greeting and answer.

use vstd::prelude::*;

verus! {

/// The commands the wrapper understands.
#[derive(Debug, Clone, Copy, PartialEq, Eq, Structural)]
pub enum Command {
    QueryHardware,
    SetAuto,
    SetValue,
    GetValue,
    Shutdown,
    Update,
    GetStringValue,
}

/// The code of a command on the wire.
pub open spec fn command_code(cmd: Command) -> i32 {
    match cmd {
        Command::QueryHardware => 0,
        Command::SetAuto => 1,
        Command::SetValue => 2,
        Command::GetValue => 3,
        Command::Shutdown => 4,
        Command::Update => 5,
        Command::GetStringValue => 6,
    }
}

impl Command {
    /// The code of the command on the wire.
    pub fn code(self) -> (r: i32)
        ensures
            r == command_code(self),
    {
        match self {
            Command::QueryHardware => 0,
            Command::SetAuto => 1,
            Command::SetValue => 2,
            Command::GetValue => 3,
            Command::Shutdown => 4,
            Command::Update => 5,
            Command::GetStringValue => 6,
        }
    }
}

/// The address the wrapper listens on.
pub const IP: &'static str = "127.0.0.1";

/// The first port the wrapper may listen on.
pub const DEFAULT_PORT: u16 = 49200;

/// How many ports, from the first, the wrapper may listen on.
pub const PORT_FIND_RANGE: u16 = 50;

/// The ports to try, in order.
pub fn candidate_ports() -> (v: Vec<u16>)
    ensures
        v@.len() == PORT_FIND_RANGE,
        forall|i: int| 0 <= i < v@.len() ==> #[trigger] v@[i] == DEFAULT_PORT + i,
{
    let mut v: Vec<u16> = Vec::new();
    let mut port: u16 = DEFAULT_PORT;
    while port < DEFAULT_PORT + PORT_FIND_RANGE
        invariant
            DEFAULT_PORT <= port <= DEFAULT_PORT + PORT_FIND_RANGE,
            v@.len() == port - DEFAULT_PORT,
            forall|i: int| 0 <= i < v@.len() ==> #[trigger] v@[i] == DEFAULT_PORT + i,
        decreases DEFAULT_PORT + PORT_FIND_RANGE - port,
    {
        v.push(port);
        port = port + 1;
    }
    v
}

/// The bytes of a text, one per character, for ASCII texts.
pub open spec fn ascii_bytes(s: Seq<char>) -> Seq<u8> {
    Seq::new(s.len(), |i: int| s[i] as u8)
}

/// The greeting sent once connected.
pub open spec fn spec_check() -> Seq<u8> {
    ascii_bytes("fan-control-check"@)
}

/// The answer the wrapper greets back with.
pub open spec fn spec_check_response() -> Seq<u8> {
    ascii_bytes("fan-control-ok"@)
}

fn ascii_to_bytes(s: &str) -> (v: Vec<u8>)
    requires
        forall|i: int| 0 <= i < s@.len() ==> (#[trigger] s@[i] as int) < 128,
    ensures
        v@ == ascii_bytes(s@),
{
    let chars = crate::util::text::chars_of(s);
    let mut v: Vec<u8> = Vec::new();
    let mut i: usize = 0;
    while i < chars.len()
        invariant
            chars@ == s@,
            i <= chars@.len(),
            forall|j: int| 0 <= j < s@.len() ==> (#[trigger] s@[j] as int) < 128,
            v@ == ascii_bytes(s@).take(i as int),
        decreases chars@.len() - i,
    {
        let c = chars[i];
        assert((s@[i as int] as int) < 128);
        let b = c as u8;
        v.push(b);
        proof {
            assert(ascii_bytes(s@).take(i + 1) =~= ascii_bytes(s@).take(i as int).push(b));
        }
        i = i + 1;
    }
    proof {
        assert(ascii_bytes(s@).take(i as int) =~= ascii_bytes(s@));
    }
    v
}

/// The greeting sent once connected.
pub fn check() -> (v: Vec<u8>)
    ensures
        v@ == spec_check(),
{
    proof {
        reveal_strlit("fan-control-check");
    }
    ascii_to_bytes("fan-control-check")
}

/// Whether the bytes read back are the wrapper's answer to the greeting.
pub fn is_check_response(buffer: &[u8]) -> (r: bool)
    ensures
        r == (buffer@ == spec_check_response()),
{
    proof {
        reveal_strlit("fan-control-ok");
    }
    let expected = ascii_to_bytes("fan-control-ok");
    if buffer.len() != expected.len() {
        return false;
    }
    let mut i: usize = 0;
    while i < buffer.len()
        invariant
            buffer@.len() == expected@.len(),
            expected@ == spec_check_response(),
            i <= buffer@.len(),
            forall|j: int| 0 <= j < i ==> buffer@[j] == expected@[j],
        decreases buffer@.len() - i,
    {
        if buffer[i] != expected[i] {
            return false;
        }
        i = i + 1;
    }
    assert(buffer@ =~= expected@);
    true
}

/// How many bytes the answer to the greeting has.
pub fn check_response_len() -> (n: usize)
    ensures
        n == spec_check_response().len(),
{
    proof {
        reveal_strlit("fan-control-ok");
    }
    14
}

/// The four little-endian bytes of a 32-bit integer (std's
/// `i32::to_le_bytes`).
pub open spec fn le_bytes(v: i32) -> Seq<u8> {
    let w = v as u32;
    seq![(w % 256) as u8, ((w / 256) % 256) as u8, ((w / 65536) % 256) as u8, (w / 16777216) as u8]
}

/// The four little-endian bytes of a 32-bit integer.
pub fn int_bytes(v: i32) -> (b: Vec<u8>)
    ensures
        b@ == le_bytes(v),
{
    let w = v as u32;
    let b0 = (w & 0xff) as u8;
    let b1 = ((w >> 8) & 0xff) as u8;
    let b2 = ((w >> 16) & 0xff) as u8;
    let b3 = (w >> 24) as u8;
    assert(w & 0xff == w % 256) by (bit_vector);
    assert((w >> 8) & 0xff == (w / 256) % 256) by (bit_vector);
    assert((w >> 16) & 0xff == (w / 65536) % 256) by (bit_vector);
    assert(w >> 24 == w / 16777216) by (bit_vector);
    let mut b: Vec<u8> = Vec::new();
    b.push(b0);
    b.push(b1);
    b.push(b2);
    b.push(b3);
    assert(b@ =~= le_bytes(v));
    b
}

/// The bytes that send a command.
pub fn command_bytes(cmd: Command) -> (b: Vec<u8>)
    ensures
        b@ == le_bytes(command_code(cmd)),
{
    int_bytes(cmd.code())
}


/// The value that four little-endian bytes stand for.
pub open spec fn le_value(b: Seq<u8>) -> int {
    b[0] + 256 * b[1] + 65536 * b[2] + 16777216 * b[3]
}

/// Distinct commands go out as distinct codes.
pub proof fn law_command_codes_distinct(a: Command, b: Command)
    ensures
        command_code(a) == command_code(b) <==> a == b,
{
}

/// The bytes sent for an integer read back as the integer's 32-bit pattern.
pub proof fn law_le_bytes_read_back(v: i32)
    ensures
        le_value(le_bytes(v)) == v as u32,
{
    let w = v as u32;
    assert(w == (w % 256) + 256 * ((w / 256) % 256) + 65536 * ((w / 65536) % 256) + 16777216 * (w / 16777216))
        by (nonlinear_arith);
}

} // verus!
