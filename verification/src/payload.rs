//! Serialization of claim payloads.
//!
//! The token codec signs an opaque payload string. A login bearer carries a
//! [`SessionUser`] in that string, written in an escaped, field-terminated
//! form: every field is escaped (`\` before a literal `\` or `|`) and closed
//! with `|`. Decoding is proved to invert encoding exactly.

use vstd::prelude::*;
use vstd::string::*;

use crate::models::{SessionUser, SessionUserView};
use crate::text::push_char;

verus! {

/// Escape one character.
pub open spec fn esc_char(c: char) -> Seq<char> {
    if c == '\\' || c == '|' {
        seq!['\\', c]
    } else {
        seq![c]
    }
}

/// Escape a field.
pub open spec fn esc(f: Seq<char>) -> Seq<char>
    decreases f.len(),
{
    if f.len() == 0 {
        Seq::empty()
    } else {
        esc_char(f[0]) + esc(f.drop_first())
    }
}

/// One encoded field: its escaped text closed by the terminator.
pub open spec fn enc_field(f: Seq<char>) -> Seq<char> {
    esc(f) + seq!['|']
}

/// The payload text of a [`SessionUser`].
pub open spec fn enc_su(v: SessionUserView) -> Seq<char> {
    enc_field(v.session_id) + enc_field(v.pid) + enc_field(v.first_name) + enc_field(v.last_name)
        + enc_field(v.email)
}

/// Parse one field off the front: the unescaped field text and the remainder
/// after its terminator, or `None` when the text is not a well-formed field.
pub open spec fn parse_field(s: Seq<char>) -> Option<(Seq<char>, Seq<char>)>
    decreases s.len(),
{
    if s.len() == 0 {
        None
    } else if s[0] == '|' {
        Some((Seq::empty(), s.drop_first()))
    } else if s[0] == '\\' {
        if s.len() >= 2 {
            match parse_field(s.skip(2)) {
                None => None,
                Some((f, r)) => Some((seq![s[1]] + f, r)),
            }
        } else {
            None
        }
    } else {
        match parse_field(s.drop_first()) {
            None => None,
            Some((f, r)) => Some((seq![s[0]] + f, r)),
        }
    }
}

/// Parse a whole payload as the five fields of a [`SessionUser`].
pub open spec fn dec_su(s: Seq<char>) -> Option<SessionUserView> {
    match parse_field(s) {
        None => None,
        Some((session_id, r1)) => match parse_field(r1) {
            None => None,
            Some((pid, r2)) => match parse_field(r2) {
                None => None,
                Some((first_name, r3)) => match parse_field(r3) {
                    None => None,
                    Some((last_name, r4)) => match parse_field(r4) {
                        None => None,
                        Some((email, r5)) => if r5.len() == 0 {
                            Some(SessionUserView { session_id, pid, first_name, last_name, email })
                        } else {
                            None
                        },
                    },
                },
            },
        },
    }
}

/// Escaping commutes with appending one character.
proof fn lemma_esc_push(f: Seq<char>, c: char)
    ensures
        esc(f.push(c)) == esc(f) + esc_char(c),
    decreases f.len(),
{
    let fc = f.push(c);
    if f.len() == 0 {
        assert(fc[0] == c);
        assert(fc.drop_first() =~= Seq::<char>::empty());
        assert(esc(fc) == esc_char(c) + esc(fc.drop_first()));
        assert(esc(fc) =~= esc_char(c));
        assert(esc(f) + esc_char(c) =~= esc_char(c));
    } else {
        assert(fc[0] == f[0]);
        assert(fc.drop_first() =~= f.drop_first().push(c));
        lemma_esc_push(f.drop_first(), c);
        assert(esc(fc) == esc_char(f[0]) + esc(fc.drop_first()));
        assert(esc(fc.drop_first()) == esc(f.drop_first()) + esc_char(c));
        assert(esc(f) == esc_char(f[0]) + esc(f.drop_first()));
        assert(esc_char(f[0]) + (esc(f.drop_first()) + esc_char(c)) =~= (esc_char(f[0]) + esc(
            f.drop_first(),
        )) + esc_char(c));
    }
}

/// Parsing inverts field encoding, whatever follows the terminator.
pub proof fn lemma_parse_enc_field(f: Seq<char>, rest: Seq<char>)
    ensures
        parse_field(enc_field(f) + rest) == Some((f, rest)),
    decreases f.len(),
{
    let s = enc_field(f) + rest;
    if f.len() == 0 {
        assert(s =~= seq!['|'] + rest);
        assert(s[0] == '|');
        assert(s.drop_first() =~= rest);
    } else {
        let c = f[0];
        let f2 = f.drop_first();
        lemma_parse_enc_field(f2, rest);
        if c == '\\' || c == '|' {
            assert(s =~= seq!['\\', c] + (enc_field(f2) + rest));
            assert(s[0] == '\\');
            assert(s[1] == c);
            assert(s.len() >= 2);
            assert(s.skip(2) =~= enc_field(f2) + rest);
            assert(seq![c] + f2 =~= f);
        } else {
            assert(s =~= seq![c] + (enc_field(f2) + rest));
            assert(s[0] == c);
            assert(s.drop_first() =~= enc_field(f2) + rest);
            assert(seq![c] + f2 =~= f);
        }
    }
}

/// Round trip: decoding an encoded [`SessionUser`] payload yields exactly the
/// encoded fields.
pub proof fn lemma_dec_enc_su(v: SessionUserView)
    ensures
        dec_su(enc_su(v)) == Some(v),
{
    let t5 = enc_field(v.email) + Seq::<char>::empty();
    let t4 = enc_field(v.last_name) + t5;
    let t3 = enc_field(v.first_name) + t4;
    let t2 = enc_field(v.pid) + t3;
    let t1 = enc_field(v.session_id) + t2;
    assert(enc_su(v) =~= t1);
    assert(enc_field(v.email) =~= t5);
    lemma_parse_enc_field(v.session_id, t2);
    lemma_parse_enc_field(v.pid, t3);
    lemma_parse_enc_field(v.first_name, t4);
    lemma_parse_enc_field(v.last_name, t5);
    lemma_parse_enc_field(v.email, Seq::<char>::empty());
}

/// Append the escaped text of `f` to `out`.
fn escape_into(out: &mut String, f: &str)
    ensures
        final(out)@ == old(out)@ + esc(f@),
{
    let n = f.unicode_len();
    assert(f@.take(0) =~= Seq::<char>::empty());
    assert(esc(Seq::<char>::empty()) =~= Seq::<char>::empty());
    assert(out@ =~= old(out)@ + esc(f@.take(0)));
    for i in 0..n
        invariant
            n == f@.len(),
            out@ == old(out)@ + esc(f@.take(i as int)),
    {
        let c = f.get_char(i);
        if c == '\\' || c == '|' {
            push_char(out, '\\');
            push_char(out, c);
        } else {
            push_char(out, c);
        }
        proof {
            lemma_esc_push(f@.take(i as int), c);
            assert(f@.take(i as int).push(c) =~= f@.take(i + 1));
            assert(out@ =~= old(out)@ + esc(f@.take(i + 1)));
        }
    }
    assert(f@.take(n as int) =~= f@);
}

/// Write a [`SessionUser`] as a payload string.
pub fn encode_session_user(su: &SessionUser) -> (r: String)
    ensures
        r@ == enc_su(su@),
{
    let mut out = String::new();
    escape_into(&mut out, su.session_id.as_str());
    push_char(&mut out, '|');
    escape_into(&mut out, su.pid.as_str());
    push_char(&mut out, '|');
    escape_into(&mut out, su.first_name.as_str());
    push_char(&mut out, '|');
    escape_into(&mut out, su.last_name.as_str());
    push_char(&mut out, '|');
    escape_into(&mut out, su.email.as_str());
    push_char(&mut out, '|');
    assert(out@ =~= enc_su(su@));
    out
}

/// Parse one field off the front of `s`.
fn parse_field_exec<'a>(s: &'a str) -> (r: Option<(String, &'a str)>)
    ensures
        match parse_field(s@) {
            None => r is None,
            Some((f, rest)) => r matches Some(p) && p.0@ == f && p.1@ == rest,
        },
    decreases s@.len(),
{
    let n = s.unicode_len();
    if n == 0 {
        None
    } else {
        let c0 = s.get_char(0);
        if c0 == '|' {
            let rest = s.substring_char(1, n);
            assert(rest@ =~= s@.drop_first());
            Some((String::new(), rest))
        } else if c0 == '\\' {
            if n >= 2 {
                let c1 = s.get_char(1);
                let tail = s.substring_char(2, n);
                assert(tail@ =~= s@.skip(2));
                match parse_field_exec(tail) {
                    None => None,
                    Some((f, rest)) => {
                        let mut out = String::new();
                        push_char(&mut out, c1);
                        out.append(f.as_str());
                        assert(out@ =~= seq![s@[1]] + f@);
                        Some((out, rest))
                    },
                }
            } else {
                None
            }
        } else {
            let tail = s.substring_char(1, n);
            assert(tail@ =~= s@.drop_first());
            match parse_field_exec(tail) {
                None => None,
                Some((f, rest)) => {
                    let mut out = String::new();
                    push_char(&mut out, c0);
                    out.append(f.as_str());
                    assert(out@ =~= seq![s@[0]] + f@);
                    Some((out, rest))
                },
            }
        }
    }
}

/// Read a [`SessionUser`] back from a payload string; `None` exactly when the
/// text is not a complete five-field payload.
pub fn decode_session_user(s: &str) -> (r: Option<SessionUser>)
    ensures
        match dec_su(s@) {
            None => r is None,
            Some(v) => r is Some && r->0@ == v,
        },
{
    let r1 = match parse_field_exec(s) {
        None => {
            return None;
        },
        Some(x) => x,
    };
    let r2 = match parse_field_exec(r1.1) {
        None => {
            return None;
        },
        Some(x) => x,
    };
    let r3 = match parse_field_exec(r2.1) {
        None => {
            return None;
        },
        Some(x) => x,
    };
    let r4 = match parse_field_exec(r3.1) {
        None => {
            return None;
        },
        Some(x) => x,
    };
    let r5 = match parse_field_exec(r4.1) {
        None => {
            return None;
        },
        Some(x) => x,
    };
    if r5.1.unicode_len() == 0 {
        Some(
            SessionUser {
                session_id: r1.0,
                pid: r2.0,
                first_name: r3.0,
                last_name: r4.0,
                email: r5.0,
            },
        )
    } else {
        None
    }
}

} // verus!
