//! The text protocol by which a worker reports its status to the core's
//! dispatcher: one datagram of the form `"<worker id>,<COMMAND>"`.
use vstd::prelude::*;

use crate::enums::workers::WorkerStatusEnum;
use crate::numeric::{
    all_digits, i32_text, i32_to_text, is_digit, lemma_nat_text, lemma_parse_i32_text, nat_text,
    parse_i32, parse_i32_range,
};
use crate::text::{
    chars_of, is_space, leading_spaces, push_char, range_eq_str, trailing_spaces, trim,
    trim_range,
};

verus! {

/// A status report that a worker sends.
#[derive(Debug, Clone, Copy, PartialEq, Eq, Structural)]
pub enum HeartbeatCommand {
    /// Sent once when the worker starts.
    Connect,
    /// Sent periodically while the worker waits for jobs.
    Idle,
    /// Sent while the worker runs a job.
    Busy,
    /// Sent when the worker shuts down.
    Disconnect,
}

impl HeartbeatCommand {
    /// The keyword of the command on the wire.
    pub open spec fn text(self) -> Seq<char> {
        match self {
            HeartbeatCommand::Connect => "CONNECT"@,
            HeartbeatCommand::Idle => "IDLE"@,
            HeartbeatCommand::Busy => "BUSY"@,
            HeartbeatCommand::Disconnect => "DISCONNECT"@,
        }
    }

    /// The status that the core records for the command.
    pub open spec fn status(self) -> WorkerStatusEnum {
        match self {
            HeartbeatCommand::Connect => WorkerStatusEnum::Idle,
            HeartbeatCommand::Idle => WorkerStatusEnum::Idle,
            HeartbeatCommand::Busy => WorkerStatusEnum::Busy,
            HeartbeatCommand::Disconnect => WorkerStatusEnum::Offline,
        }
    }

    /// The keyword of the command on the wire.
    pub fn keyword(&self) -> (r: &'static str)
        ensures
            r@ == self.text(),
    {
        match self {
            HeartbeatCommand::Connect => "CONNECT",
            HeartbeatCommand::Idle => "IDLE",
            HeartbeatCommand::Busy => "BUSY",
            HeartbeatCommand::Disconnect => "DISCONNECT",
        }
    }
}

/// The status that a command keyword reports, if the keyword is known.
pub open spec fn command_status(cmd: Seq<char>) -> Option<WorkerStatusEnum> {
    if cmd == "CONNECT"@ || cmd == "IDLE"@ {
        Some(WorkerStatusEnum::Idle)
    } else if cmd == "BUSY"@ {
        Some(WorkerStatusEnum::Busy)
    } else if cmd == "DISCONNECT"@ {
        Some(WorkerStatusEnum::Offline)
    } else {
        None
    }
}

/// `s[k]` is the only comma of `s`.
pub open spec fn sole_comma_at(s: Seq<char>, k: int) -> bool {
    &&& 0 <= k < s.len()
    &&& s[k] == ','
    &&& forall|j: int| 0 <= j < s.len() && j != k ==> s[j] != ','
}

/// What a status message reports: a message with exactly one comma, a
/// worker id before it and a known keyword after it, each trimmed of
/// whitespace. Anything else reports nothing.
pub open spec fn status_message(s: Seq<char>) -> Option<(i32, WorkerStatusEnum)> {
    if exists|k: int| sole_comma_at(s, k) {
        let k = choose|k: int| sole_comma_at(s, k);
        match (parse_i32(trim(s.subrange(0, k))), command_status(trim(s.subrange(k + 1, s.len() as int)))) {
            (Some(id), Some(st)) => Some((id, st)),
            _ => None,
        }
    } else {
        None
    }
}

/// What a received datagram reports: the status message of its trimmed text.
pub open spec fn datagram_report(s: Seq<char>) -> Option<(i32, WorkerStatusEnum)> {
    status_message(trim(s))
}

/// The datagram text that a worker sends for a command.
pub open spec fn heartbeat_text(worker_id: i32, cmd: HeartbeatCommand) -> Seq<char> {
    i32_text(worker_id) + seq![','] + cmd.text()
}

fn command_status_range(v: &Vec<char>, lo: usize, hi: usize) -> (r: Option<WorkerStatusEnum>)
    requires
        lo <= hi <= v.len(),
    ensures
        r == command_status(v@.subrange(lo as int, hi as int)),
{
    if range_eq_str(v, lo, hi, "CONNECT") || range_eq_str(v, lo, hi, "IDLE") {
        Some(WorkerStatusEnum::Idle)
    } else if range_eq_str(v, lo, hi, "BUSY") {
        Some(WorkerStatusEnum::Busy)
    } else if range_eq_str(v, lo, hi, "DISCONNECT") {
        Some(WorkerStatusEnum::Offline)
    } else {
        None
    }
}

/// Reads the worker id and the reported status from a received datagram's
/// text; a malformed datagram reports nothing.
pub fn parse_heartbeat(text: &str) -> (r: Option<(i32, WorkerStatusEnum)>)
    ensures
        r == datagram_report(text@),
{
    let v = chars_of(text);
    let (a, b) = trim_range(&v, 0, v.len());
    let ghost s = v@.subrange(a as int, b as int);
    proof {
        assert(v@.subrange(0, v.len() as int) =~= text@);
        assert(s == trim(text@));
    }
    let mut first: Option<usize> = None;
    let mut i: usize = a;
    while i < b
        invariant
            a <= i <= b <= v.len(),
            s == v@.subrange(a as int, b as int),
            s == trim(text@),
            first is None ==> forall|j: int| a <= j < i ==> v@[j] != ',',
            first matches Some(k) ==> {
                &&& a <= k < i
                &&& v@[k as int] == ','
                &&& forall|j: int| a <= j < i && j != k ==> v@[j] != ','
            },
        decreases b - i,
    {
        if v[i] == ',' {
            if first.is_some() {
                proof {
                    let k = first->0;
                    assert forall|kk: int| !sole_comma_at(s, kk) by {
                        if sole_comma_at(s, kk) {
                            assert(s[k - a] == ',');
                            assert(s[i - a] == ',');
                        }
                    }
                }
                return None;
            }
            first = Some(i);
        }
        i = i + 1;
    }
    match first {
        None => {
            proof {
                assert forall|kk: int| !sole_comma_at(s, kk) by {
                    if sole_comma_at(s, kk) {
                        assert(s[kk] == v@[a + kk]);
                    }
                }
            }
            None
        },
        Some(k) => {
            proof {
                assert(sole_comma_at(s, k - a));
                let kk = choose|kk: int| sole_comma_at(s, kk);
                assert(kk == k - a);
                assert(s.subrange(0, k - a) =~= v@.subrange(a as int, k as int));
                assert(s.subrange(k - a + 1, s.len() as int) =~= v@.subrange(k + 1, b as int));
            }
            let (p0, p1) = trim_range(&v, a, k);
            let (q0, q1) = trim_range(&v, k + 1, b);
            let id = parse_i32_range(&v, p0, p1);
            let st = command_status_range(&v, q0, q1);
            match (id, st) {
                (Some(id), Some(st)) => Some((id, st)),
                _ => None,
            }
        },
    }
}

/// The datagram text that a worker sends for a command: the decimal
/// worker id, a comma, and the command keyword.
pub fn heartbeat_message(worker_id: i32, cmd: HeartbeatCommand) -> (r: String)
    ensures
        r@ == heartbeat_text(worker_id, cmd),
{
    let digits = i32_to_text(worker_id);
    let mut out = String::new();
    let mut i: usize = 0;
    while i < digits.len()
        invariant
            i <= digits.len(),
            out@ == digits@.subrange(0, i as int),
        decreases digits.len() - i,
    {
        push_char(&mut out, digits[i]);
        proof {
            assert(digits@.subrange(0, i + 1) =~= digits@.subrange(0, i as int).push(
                digits@[i as int],
            ));
        }
        i = i + 1;
    }
    proof {
        assert(digits@.subrange(0, digits.len() as int) =~= digits@);
    }
    push_char(&mut out, ',');
    out.append(cmd.keyword());
    proof {
        assert(out@ =~= heartbeat_text(worker_id, cmd));
    }
    out
}

proof fn lemma_no_spaces_trim(s: Seq<char>)
    requires
        s.len() > 0,
        !is_space(s[0]),
        !is_space(s.last()),
    ensures
        trim(s) == s,
{
    assert(leading_spaces(s) == 0);
    assert(trailing_spaces(s) == 0);
    assert(s.subrange(0, s.len() as int) =~= s);
}

proof fn lemma_command_text(cmd: HeartbeatCommand)
    ensures
        cmd.text().len() > 0,
        !is_space(cmd.text()[0]),
        !is_space(cmd.text().last()),
        forall|j: int| 0 <= j < cmd.text().len() ==> cmd.text()[j] != ',',
        command_status(cmd.text()) == Some(cmd.status()),
{
    reveal_strlit("CONNECT");
    reveal_strlit("IDLE");
    reveal_strlit("BUSY");
    reveal_strlit("DISCONNECT");
    assert("BUSY"@[0] != "IDLE"@[0]);
    assert("BUSY"@.len() != "CONNECT"@.len());
    assert("DISCONNECT"@.len() != "CONNECT"@.len());
    assert("DISCONNECT"@.len() != "IDLE"@.len());
    assert("DISCONNECT"@.len() != "BUSY"@.len());
}

proof fn lemma_id_text(x: i32)
    ensures
        i32_text(x).len() > 0,
        !is_space(i32_text(x)[0]),
        !is_space(i32_text(x).last()),
        forall|j: int| 0 <= j < i32_text(x).len() ==> i32_text(x)[j] != ',',
{
    let m: nat = if x < 0 {
        (-(x as int)) as nat
    } else {
        x as nat
    };
    lemma_nat_text(m);
    let d = nat_text(m);
    assert(is_digit(d[0]));
    assert(is_digit(d[d.len() - 1]));
    let t = i32_text(x);
    if x < 0 {
        assert(t.last() == d[d.len() - 1]);
    }
    assert forall|j: int| 0 <= j < t.len() implies t[j] != ',' by {
        if x < 0 {
            if j > 0 {
                assert(t[j] == d[j - 1]);
                assert(is_digit(d[j - 1]));
            }
        } else {
            assert(is_digit(d[j]));
        }
    }
}

/// Whatever id and command a worker sends, the core reads back that id
/// and the status the command stands for.
pub proof fn heartbeat_round_trip(worker_id: i32, cmd: HeartbeatCommand)
    ensures
        datagram_report(heartbeat_text(worker_id, cmd)) == Some((worker_id, cmd.status())),
{
    let id = i32_text(worker_id);
    let c = cmd.text();
    let s = heartbeat_text(worker_id, cmd);
    lemma_id_text(worker_id);
    lemma_command_text(cmd);
    assert(s[0] == id[0]);
    assert(s.last() == c.last());
    lemma_no_spaces_trim(s);
    let k = id.len() as int;
    assert(sole_comma_at(s, k)) by {
        assert forall|j: int| 0 <= j < s.len() && j != k implies s[j] != ',' by {
            if j < k {
                assert(s[j] == id[j]);
            } else {
                assert(s[j] == c[j - k - 1]);
            }
        }
    }
    let kk = choose|kk: int| sole_comma_at(s, kk);
    assert(kk == k) by {
        if kk != k {
            assert(s[kk] != ',');
        }
    }
    assert(s.subrange(0, k) =~= id);
    assert(s.subrange(k + 1, s.len() as int) =~= c);
    lemma_no_spaces_trim(id);
    lemma_no_spaces_trim(c);
    lemma_parse_i32_text(worker_id);
}

} // verus!
