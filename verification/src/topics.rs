//! Broker topic derivation for one remote session.
//!
//! A session is scoped by a remote identifier and a numeric access code.
//! Commands go to a topic derived from the remote identifier alone, so it
//! is shared by every session controlling the same agent; authorization
//! rests on the access code embedded in each payload. State broadcasts
//! arrive on a topic derived from both values.

use vstd::prelude::*;

use crate::numfmt::{append_i64, dec_digits, dec_int, digit_char};

verus! {

/// The identity of the controlled agent: its remote identifier and the
/// numeric access code taken from the shareable link. Immutable for the
/// lifetime of a session.
pub struct RemoteSession {
    pub remote_id: String,
    pub access_code: i64,
}

/// The topic commands are published on: derived from the remote
/// identifier alone.
pub open spec fn command_topic_text(remote_id: Seq<char>) -> Seq<char> {
    "acme_bot_remote/"@ + remote_id
}

/// The topic state broadcasts arrive on: derived from the remote
/// identifier and the access code.
pub open spec fn state_topic_text(remote_id: Seq<char>, code: int) -> Seq<char> {
    "acme_bot_remote_update/"@ + remote_id + "."@ + dec_int(code)
}

impl RemoteSession {
    /// Fixes the identity of the session.
    pub fn new(remote_id: String, access_code: i64) -> (r: Self)
        ensures
            r.remote_id == remote_id,
            r.access_code == access_code,
    {
        RemoteSession { remote_id, access_code }
    }

    /// Derives the command topic name.
    pub fn command_topic(&self) -> (r: String)
        ensures
            r@ == command_topic_text(self.remote_id@),
    {
        let mut out = String::new();
        out.append("acme_bot_remote/");
        out.append(self.remote_id.as_str());
        proof {
            assert(out@ =~= command_topic_text(self.remote_id@));
        }
        out
    }

    /// Derives the state topic name.
    pub fn state_topic(&self) -> (r: String)
        ensures
            r@ == state_topic_text(self.remote_id@, self.access_code as int),
    {
        let mut out = String::new();
        out.append("acme_bot_remote_update/");
        out.append(self.remote_id.as_str());
        out.append(".");
        append_i64(&mut out, self.access_code);
        proof {
            assert(out@ =~= state_topic_text(self.remote_id@, self.access_code as int));
        }
        out
    }
}

/// A decimal rendering never has fewer than one character.
proof fn lemma_dec_digits_len(n: nat)
    ensures
        dec_digits(n).len() >= 1,
    decreases n,
{
    if n >= 10 {
        lemma_dec_digits_len(n / 10);
    }
}

/// A decimal rendering starts with a digit, never with a minus sign.
proof fn lemma_dec_digits_first(n: nat)
    ensures
        dec_digits(n)[0] != '-',
    decreases n,
{
    if n >= 10 {
        lemma_dec_digits_len(n / 10);
        lemma_dec_digits_first(n / 10);
        assert(dec_digits(n)[0] == dec_digits(n / 10)[0]);
    }
}

/// Two distinct non-negative integers have distinct decimal renderings.
proof fn lemma_dec_digits_injective(a: nat, b: nat)
    ensures
        dec_digits(a) == dec_digits(b) ==> a == b,
    decreases a + b,
{
    lemma_dec_digits_len(a);
    lemma_dec_digits_len(b);
    if dec_digits(a) == dec_digits(b) {
        if a < 10 && b < 10 {
            assert(dec_digits(a)[0] == dec_digits(b)[0]);
        } else if a >= 10 && b >= 10 {
            let sa = dec_digits(a / 10);
            let sb = dec_digits(b / 10);
            assert(sa.len() == sb.len());
            assert(sa =~= sb) by {
                assert(forall|i: int|
                    0 <= i < sa.len() ==> sa[i] == dec_digits(a)[i] && sb[i] == dec_digits(b)[i]);
            }
            assert(dec_digits(a)[sa.len() as int] == digit_char((a % 10) as int));
            assert(dec_digits(b)[sb.len() as int] == digit_char((b % 10) as int));
            assert(a % 10 == b % 10);
            lemma_dec_digits_injective(a / 10, b / 10);
        } else if a < 10 {
            lemma_dec_digits_len(b / 10);
            assert(dec_digits(a).len() == 1);
            assert(dec_digits(b).len() >= 2);
        } else {
            lemma_dec_digits_len(a / 10);
            assert(dec_digits(b).len() == 1);
            assert(dec_digits(a).len() >= 2);
        }
    }
}

/// Two distinct integers have distinct signed decimal renderings.
proof fn lemma_dec_int_injective(a: int, b: int)
    ensures
        dec_int(a) == dec_int(b) ==> a == b,
{
    if dec_int(a) == dec_int(b) {
        if a >= 0 && b >= 0 {
            lemma_dec_digits_injective(a as nat, b as nat);
        } else if a < 0 && b < 0 {
            let da = dec_digits((-a) as nat);
            let db = dec_digits((-b) as nat);
            assert(dec_int(a).len() == 1 + da.len());
            assert(dec_int(b).len() == 1 + db.len());
            assert forall|i: int| 0 <= i < da.len() implies da[i] == db[i] by {
                assert(da[i] == dec_int(a)[i + 1]);
                assert(db[i] == dec_int(b)[i + 1]);
            }
            assert(da =~= db);
            lemma_dec_digits_injective((-a) as nat, (-b) as nat);
        } else if a >= 0 {
            lemma_dec_digits_first(a as nat);
            assert(dec_int(b)[0] == '-');
        } else {
            lemma_dec_digits_first(b as nat);
            assert(dec_int(a)[0] == '-');
        }
    }
}

/// For one remote identifier, sessions with distinct access codes never
/// collide on the state topic; only the command topic is shared.
pub proof fn lemma_state_topic_injective(remote_id: Seq<char>, code_a: int, code_b: int)
    requires
        state_topic_text(remote_id, code_a) == state_topic_text(remote_id, code_b),
    ensures
        code_a == code_b,
{
    let head = "acme_bot_remote_update/"@ + remote_id + "."@;
    let da = dec_int(code_a);
    let db = dec_int(code_b);
    assert(state_topic_text(remote_id, code_a).len() == head.len() + da.len());
    assert(state_topic_text(remote_id, code_b).len() == head.len() + db.len());
    assert(da =~= db) by {
        assert(forall|i: int|
            0 <= i < da.len() ==> da[i] == state_topic_text(remote_id, code_a)[head.len() + i]
                && db[i] == state_topic_text(remote_id, code_b)[head.len() + i]);
    }
    lemma_dec_int_injective(code_a, code_b);
}

} // verus!
