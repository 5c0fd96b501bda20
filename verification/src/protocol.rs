//! Byte-exact construction of the JSON request bodies sent to the gateway,
//! and extraction of the fields the core reads from gateway answers.
//!
//! The bodies are signed, so their serialization is pinned down to an exact
//! character sequence: compact JSON with keys in sorted order and strings
//! escaped with the standard JSON escapes, the same form serde_json gives
//! such a document.

use vstd::prelude::*;
use crate::errors::{DomainError, DomainResult};
use crate::dto::{OrderQueryResponse, WeChatPayResponse};
use crate::json::{json_get_str, json_str_field};
use crate::text::{i64_to_string, spec_i64_str};

verus! {

/// The lowercase hexadecimal digit character for a value below 16.
pub open spec fn hex_char(d: nat) -> char {
    if d == 0 {
        '0'
    } else if d == 1 {
        '1'
    } else if d == 2 {
        '2'
    } else if d == 3 {
        '3'
    } else if d == 4 {
        '4'
    } else if d == 5 {
        '5'
    } else if d == 6 {
        '6'
    } else if d == 7 {
        '7'
    } else if d == 8 {
        '8'
    } else if d == 9 {
        '9'
    } else if d == 10 {
        'a'
    } else if d == 11 {
        'b'
    } else if d == 12 {
        'c'
    } else if d == 13 {
        'd'
    } else if d == 14 {
        'e'
    } else {
        'f'
    }
}

/// How one character appears inside a JSON string: quote, backslash and the
/// named control characters get a two-character escape, other control
/// characters a six-character unicode escape, everything else stands as
/// itself.
pub open spec fn spec_escape_char(c: char) -> Seq<char> {
    if c == '"' {
        seq!['\\', '"']
    } else if c == '\\' {
        seq!['\\', '\\']
    } else if c == '\u{8}' {
        seq!['\\', 'b']
    } else if c == '\t' {
        seq!['\\', 't']
    } else if c == '\n' {
        seq!['\\', 'n']
    } else if c == '\u{c}' {
        seq!['\\', 'f']
    } else if c == '\r' {
        seq!['\\', 'r']
    } else if (c as u32) < 0x20 {
        seq!['\\', 'u', '0', '0', hex_char(((c as u32) / 16) as nat), hex_char(
            ((c as u32) % 16) as nat,
        )]
    } else {
        seq![c]
    }
}

/// The escaped form of a whole character sequence.
pub open spec fn spec_json_escape(s: Seq<char>) -> Seq<char>
    decreases s.len(),
{
    if s.len() == 0 {
        Seq::empty()
    } else {
        spec_escape_char(s[0]) + spec_json_escape(s.subrange(1, s.len() as int))
    }
}

/// A JSON string literal: the escaped characters between double quotes.
pub open spec fn spec_json_string(s: Seq<char>) -> Seq<char> {
    seq!['"'] + spec_json_escape(s) + seq!['"']
}

proof fn lemma_json_escape_push(t: Seq<char>, c: char)
    ensures
        spec_json_escape(t.push(c)) == spec_json_escape(t) + spec_escape_char(c),
    decreases t.len(),
{
    if t.len() == 0 {
        assert(t.push(c)[0] == c);
        assert(t.push(c).subrange(1, 1) =~= Seq::<char>::empty());
        assert(spec_json_escape(Seq::<char>::empty()) == Seq::<char>::empty());
        assert(spec_json_escape(t.push(c)) =~= spec_json_escape(t) + spec_escape_char(c));
    } else {
        assert(t.push(c)[0] == t[0]);
        assert(t.push(c).subrange(1, t.len() as int + 1) =~= t.subrange(1, t.len() as int).push(c));
        lemma_json_escape_push(t.subrange(1, t.len() as int), c);
        assert(spec_json_escape(t.push(c)) =~= spec_json_escape(t) + spec_escape_char(c));
    }
}

/// Relies on std's `String::push`.
#[verifier::external_body]
fn push_char(s: &mut String, c: char)
    ensures
        final(s)@ == old(s)@ + seq![c],
{
    s.push(c);
}

/// Appends the lowercase hexadecimal digit of a value below 16.
fn append_hex_nibble(out: &mut String, d: u32)
    requires
        d < 16,
    ensures
        final(out)@ == old(out)@ + seq![hex_char(d as nat)],
{
    if d < 10 {
        crate::text::append_digit(out, d as u64);
    } else if d == 10 {
        out.append("a");
        proof { reveal_strlit("a"); }
    } else if d == 11 {
        out.append("b");
        proof { reveal_strlit("b"); }
    } else if d == 12 {
        out.append("c");
        proof { reveal_strlit("c"); }
    } else if d == 13 {
        out.append("d");
        proof { reveal_strlit("d"); }
    } else if d == 14 {
        out.append("e");
        proof { reveal_strlit("e"); }
    } else {
        out.append("f");
        proof { reveal_strlit("f"); }
    }
    proof {
        assert(final(out)@ =~= old(out)@ + seq![hex_char(d as nat)]);
    }
}

/// Appends one character in its escaped JSON form.
fn append_escaped_char(out: &mut String, c: char)
    ensures
        final(out)@ == old(out)@ + spec_escape_char(c),
{
    if c == '"' {
        out.append("\\\"");
        proof { reveal_strlit("\\\""); }
    } else if c == '\\' {
        out.append("\\\\");
        proof { reveal_strlit("\\\\"); }
    } else if c == '\u{8}' {
        out.append("\\b");
        proof { reveal_strlit("\\b"); }
    } else if c == '\t' {
        out.append("\\t");
        proof { reveal_strlit("\\t"); }
    } else if c == '\n' {
        out.append("\\n");
        proof { reveal_strlit("\\n"); }
    } else if c == '\u{c}' {
        out.append("\\f");
        proof { reveal_strlit("\\f"); }
    } else if c == '\r' {
        out.append("\\r");
        proof { reveal_strlit("\\r"); }
    } else if (c as u32) < 0x20 {
        out.append("\\u00");
        proof { reveal_strlit("\\u00"); }
        let code = c as u32;
        append_hex_nibble(out, code / 16);
        append_hex_nibble(out, code % 16);
    } else {
        push_char(out, c);
    }
    proof {
        assert(final(out)@ =~= old(out)@ + spec_escape_char(c));
    }
}

/// Appends a whole string in its escaped JSON form.
fn append_json_escaped(out: &mut String, s: &str)
    ensures
        final(out)@ == old(out)@ + spec_json_escape(s@),
{
    let len = s.unicode_len();
    let mut i: usize = 0;
    proof {
        assert(s@.subrange(0, 0) =~= Seq::<char>::empty());
    }
    while i < len
        invariant
            len == s@.len(),
            i <= len,
            out@ == old(out)@ + spec_json_escape(s@.subrange(0, i as int)),
        decreases len - i,
    {
        let c = s.get_char(i);
        append_escaped_char(out, c);
        proof {
            assert(s@.subrange(0, i as int + 1) =~= s@.subrange(0, i as int).push(c));
            lemma_json_escape_push(s@.subrange(0, i as int), c);
            assert(out@ =~= old(out)@ + spec_json_escape(s@.subrange(0, i as int + 1)));
        }
        i += 1;
    }
    proof {
        assert(s@.subrange(0, len as int) =~= s@);
    }
}

/// Appends a JSON string literal: quotes around the escaped characters.
fn append_json_string(out: &mut String, s: &str)
    ensures
        final(out)@ == old(out)@ + spec_json_string(s@),
{
    out.append("\"");
    proof { reveal_strlit("\""); }
    append_json_escaped(out, s);
    out.append("\"");
    proof {
        assert(final(out)@ =~= old(out)@ + spec_json_string(s@));
    }
}

/// A standalone JSON string literal for one string value.
pub fn json_string(s: &str) -> (r: String)
    ensures
        r@ == spec_json_string(s@),
{
    let mut out = String::new();
    append_json_string(&mut out, s);
    proof {
        assert(out@ =~= spec_json_string(s@));
    }
    out
}

/// The exact JSON body of a remote order creation: keys in sorted order, the
/// amount in minor units with the fixed currency, the payer identity and the
/// client address in their nested objects.
pub open spec fn spec_create_order_body(
    appid: Seq<char>,
    mchid: Seq<char>,
    description: Seq<char>,
    out_trade_no: Seq<char>,
    notify_url: Seq<char>,
    amount_cents: int,
    openid: Seq<char>,
    client_ip: Seq<char>,
) -> Seq<char> {
    "{\"amount\":{\"currency\":\"CNY\",\"total\":"@ + spec_i64_str(amount_cents) + "},\"appid\":"@
        + spec_json_string(appid) + ",\"description\":"@ + spec_json_string(description)
        + ",\"mchid\":"@ + spec_json_string(mchid) + ",\"notify_url\":"@ + spec_json_string(
        notify_url,
    ) + ",\"out_trade_no\":"@ + spec_json_string(out_trade_no) + ",\"payer\":{\"openid\":"@
        + spec_json_string(openid) + "},\"scene_info\":{\"payer_client_ip\":"@ + spec_json_string(
        client_ip,
    ) + "}}"@
}

/// Builds the body of a remote order creation. The payer identity is
/// required by the mini-program flow; without it the request is rejected
/// before anything is sent.
pub fn build_create_order_body(
    appid: &str,
    mchid: &str,
    description: &str,
    out_trade_no: &str,
    notify_url: &str,
    amount_cents: i64,
    openid: &Option<String>,
    client_ip: &str,
) -> (r: DomainResult<String>)
    ensures
        r is Ok <==> openid is Some,
        r matches Ok(b) ==> openid matches Some(oid) && b@ == spec_create_order_body(
            appid@,
            mchid@,
            description@,
            out_trade_no@,
            notify_url@,
            amount_cents as int,
            oid@,
            client_ip@,
        ),
        r matches Err(e) ==> e is ValidationError,
{
    let oid = match openid {
        Some(o) => o,
        None => {
            return Err(
                DomainError::ValidationError(
                    String::from_str("OpenID is required for mini program payment"),
                ),
            );
        },
    };
    let mut out = String::from_str("{\"amount\":{\"currency\":\"CNY\",\"total\":");
    let amount_str = i64_to_string(amount_cents);
    out.append(amount_str.as_str());
    out.append("},\"appid\":");
    append_json_string(&mut out, appid);
    out.append(",\"description\":");
    append_json_string(&mut out, description);
    out.append(",\"mchid\":");
    append_json_string(&mut out, mchid);
    out.append(",\"notify_url\":");
    append_json_string(&mut out, notify_url);
    out.append(",\"out_trade_no\":");
    append_json_string(&mut out, out_trade_no);
    out.append(",\"payer\":{\"openid\":");
    append_json_string(&mut out, oid.as_str());
    out.append("},\"scene_info\":{\"payer_client_ip\":");
    append_json_string(&mut out, client_ip);
    out.append("}}");
    proof {
        assert(out@ =~= spec_create_order_body(
            appid@,
            mchid@,
            description@,
            out_trade_no@,
            notify_url@,
            amount_cents as int,
            oid@,
            client_ip@,
        ));
    }
    Ok(out)
}

/// The exact JSON body of a remote order close.
pub open spec fn spec_close_order_body(mchid: Seq<char>) -> Seq<char> {
    "{\"mchid\":"@ + spec_json_string(mchid) + "}"@
}

/// Builds the body of a remote order close.
pub fn build_close_order_body(mchid: &str) -> (r: String)
    ensures
        r@ == spec_close_order_body(mchid@),
{
    let mut out = String::from_str("{\"mchid\":");
    append_json_string(&mut out, mchid);
    out.append("}");
    proof {
        assert(out@ =~= spec_close_order_body(mchid@));
    }
    out
}

/// Reads the prepay token out of the gateway's order-creation answer; a
/// missing token is a gateway error.
pub fn parse_prepay_id(body: &str) -> (r: DomainResult<WeChatPayResponse>)
    ensures
        r is Ok <==> json_str_field(body@, "prepay_id"@) is Some,
        r matches Ok(resp) ==> Some(resp.prepay_id@) == json_str_field(body@, "prepay_id"@),
        r matches Err(e) ==> e is WeChatPayError,
{
    match json_get_str(body, "prepay_id") {
        Some(prepay_id) => Ok(WeChatPayResponse { prepay_id }),
        None => Err(DomainError::WeChatPayError(String::from_str("Missing prepay_id"))),
    }
}

/// Reads the trade state, transaction id and state description out of the
/// gateway's query answer; an absent trade state is reported as the unknown
/// token rather than an error.
pub fn parse_order_query_response(body: &str) -> (r: OrderQueryResponse)
    ensures
        json_str_field(body@, "trade_state"@) matches Some(t) ==> r.trade_state@ == t,
        json_str_field(body@, "trade_state"@) is None ==> r.trade_state@ == "UNKNOWN"@,
        r.transaction_id is Some <==> json_str_field(body@, "transaction_id"@) is Some,
        r.transaction_id matches Some(t) ==> Some(t@) == json_str_field(body@, "transaction_id"@),
        r.trade_state_desc is Some <==> json_str_field(body@, "trade_state_desc"@) is Some,
        r.trade_state_desc matches Some(t) ==> Some(t@) == json_str_field(
            body@,
            "trade_state_desc"@,
        ),
{
    let trade_state = match json_get_str(body, "trade_state") {
        Some(t) => t,
        None => String::from_str("UNKNOWN"),
    };
    OrderQueryResponse {
        trade_state,
        transaction_id: json_get_str(body, "transaction_id"),
        trade_state_desc: json_get_str(body, "trade_state_desc"),
    }
}

} // verus!
