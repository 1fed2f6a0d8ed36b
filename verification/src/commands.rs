//! Transport commands and their wire payloads.
//!
//! Every command is a JSON object carrying an `op` tag and the session's
//! access code; `loop`, `volume`, `move` and `remove` add their own
//! fields. The payload text is specified exactly, so the serializer is
//! verified down to the characters on the wire.

use vstd::prelude::*;

use crate::escape::{esc_str, escape_json};
use crate::numfmt::{append_i64, append_u64, dec_digits, dec_int};

verus! {

/// One of the ten command kinds accepted by the agent.
///
/// `Move` and `Remove` carry the entry's current queue offset together
/// with its identifier; the offset must be resolved from the snapshot at
/// call time, since the queue may have been reordered since the control
/// was rendered.
pub enum Command {
    Resume,
    Pause,
    Stop,
    Clear,
    Skip,
    Prev,
    Loop { enabled: bool },
    Volume { value: u8 },
    Move { offset: usize, id: String },
    Remove { offset: usize, id: String },
}

/// The `op` tag of each command kind.
pub open spec fn op_name(c: Command) -> Seq<char> {
    match c {
        Command::Resume => "resume"@,
        Command::Pause => "pause"@,
        Command::Stop => "stop"@,
        Command::Clear => "clear"@,
        Command::Skip => "skip"@,
        Command::Prev => "prev"@,
        Command::Loop { .. } => "loop"@,
        Command::Volume { .. } => "volume"@,
        Command::Move { .. } => "move"@,
        Command::Remove { .. } => "remove"@,
    }
}

/// The JSON rendering of a boolean.
pub open spec fn bool_text(b: bool) -> Seq<char> {
    if b {
        "true"@
    } else {
        "false"@
    }
}

/// The common head of every payload: the `op` tag followed by the `code`
/// field holding the session's access code.
pub open spec fn cmd_prefix(op: Seq<char>, code: int) -> Seq<char> {
    "{\"op\":\""@ + op + "\",\"code\":"@ + dec_int(code)
}

/// The trailing fields of a `move` or `remove` payload: the resolved
/// queue offset and the (escaped) entry identifier.
pub open spec fn item_suffix(offset: int, id: Seq<char>) -> Seq<char> {
    ",\"offset\":"@ + dec_digits(offset as nat) + ",\"id\":\""@ + esc_str(id) + "\"}"@
}

/// The fields a command adds after the common head.
pub open spec fn cmd_suffix(c: Command) -> Seq<char> {
    match c {
        Command::Loop { enabled } => ",\"enabled\":"@ + bool_text(enabled) + "}"@,
        Command::Volume { value } => ",\"value\":"@ + dec_digits(value as nat) + "}"@,
        Command::Move { offset, id } => item_suffix(offset as int, id@),
        Command::Remove { offset, id } => item_suffix(offset as int, id@),
        _ => "}"@,
    }
}

/// The full payload of a command under a given access code: the `op` tag
/// names the kind and the `code` field holds the access code, whatever
/// the kind.
pub open spec fn command_json(c: Command, code: int) -> Seq<char> {
    cmd_prefix(op_name(c), code) + cmd_suffix(c)
}

/// Command values the agent accepts: a volume never leaves its 0 to
/// 100 scale.
pub open spec fn valid_command(c: Command) -> bool {
    match c {
        Command::Volume { value } => value <= 100,
        _ => true,
    }
}

/// Whatever the command kind, its payload opens with an `op` field that
/// names the kind, immediately followed by a `code` field that carries
/// the session's access code; the kind's own fields come after.
pub proof fn lemma_payload_carries_op_and_code(c: Command, code: int)
    ensures
        command_json(c, code) == "{\"op\":\""@ + op_name(c) + "\",\"code\":"@ + dec_int(code)
            + cmd_suffix(c),
{
}

impl Command {
    /// The `op` tag of this command.
    pub fn op_str(&self) -> (r: &'static str)
        ensures
            r@ == op_name(*self),
    {
        match self {
            Command::Resume => "resume",
            Command::Pause => "pause",
            Command::Stop => "stop",
            Command::Clear => "clear",
            Command::Skip => "skip",
            Command::Prev => "prev",
            Command::Loop { .. } => "loop",
            Command::Volume { .. } => "volume",
            Command::Move { .. } => "move",
            Command::Remove { .. } => "remove",
        }
    }

    /// Serializes this command under the given access code.
    pub fn to_json(&self, code: i64) -> (r: String)
        ensures
            r@ == command_json(*self, code as int),
    {
        let mut out = String::new();
        out.append("{\"op\":\"");
        out.append(self.op_str());
        out.append("\",\"code\":");
        append_i64(&mut out, code);
        match self {
            Command::Loop { enabled } => {
                out.append(",\"enabled\":");
                if *enabled {
                    out.append("true");
                } else {
                    out.append("false");
                }
                out.append("}");
            },
            Command::Volume { value } => {
                out.append(",\"value\":");
                append_u64(&mut out, *value as u64);
                out.append("}");
            },
            Command::Move { offset, id } => {
                append_item_fields(&mut out, *offset, id);
            },
            Command::Remove { offset, id } => {
                append_item_fields(&mut out, *offset, id);
            },
            _ => {
                out.append("}");
            },
        }
        proof {
            assert(out@ =~= command_json(*self, code as int));
        }
        out
    }
}

/// Appends the offset and identifier fields of a `move` or `remove`
/// payload, closing brace included.
fn append_item_fields(out: &mut String, offset: usize, id: &String)
    ensures
        final(out)@ == old(out)@ + item_suffix(offset as int, id@),
{
    out.append(",\"offset\":");
    append_u64(out, offset as u64);
    out.append(",\"id\":\"");
    let escaped = escape_json(id.as_str());
    out.append(escaped.as_str());
    out.append("\"}");
    proof {
        assert(final(out)@ =~= old(out)@ + item_suffix(offset as int, id@));
    }
}

} // verus!
