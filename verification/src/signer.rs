//! Canonical signing strings, RSA-SHA256 request signatures, authorization
//! headers, mini-program payment parameters, and response signature
//! verification.
//!
//! The canonical forms are pinned down byte for byte, and joining the fields
//! is proved injective for newline-free fields, so two different requests
//! never sign the same message.

use vstd::prelude::*;
use crate::clock::now_unix;
use crate::config::WeChatPayConfig;
use crate::crypto::{rsa_sha256_sig_b64, rsa_sha256_verify_ok, rsa_sign_b64, rsa_verify_b64};
use crate::dto::MiniProgramPayParams;
use crate::errors::{DomainError, DomainResult};
use crate::ids::{new_uuid_hyphenated, new_uuid_simple};
use crate::text::{i64_to_string, is_hex_lower, lemma_i64_str_no_newline, no_newline, spec_i64_str};

verus! {

/// A message field followed by its terminating newline.
pub open spec fn line_of(s: Seq<char>) -> Seq<char> {
    s + seq!['\n']
}

/// The canonical request message: the five fields joined by newlines with a
/// trailing newline, in this fixed order.
pub open spec fn spec_canonical_message(
    method: Seq<char>,
    url_path: Seq<char>,
    timestamp: Seq<char>,
    nonce: Seq<char>,
    body: Seq<char>,
) -> Seq<char> {
    line_of(method) + line_of(url_path) + line_of(timestamp) + line_of(nonce) + line_of(body)
}

/// The canonical mini-program parameter message: four fields, each with a
/// terminating newline (so the last line is empty).
pub open spec fn spec_mini_message(
    appid: Seq<char>,
    timestamp: Seq<char>,
    nonce: Seq<char>,
    package: Seq<char>,
) -> Seq<char> {
    line_of(appid) + line_of(timestamp) + line_of(nonce) + line_of(package)
}

/// The canonical response-verification message: timestamp, nonce and body,
/// each with a terminating newline.
pub open spec fn spec_verify_message(
    timestamp: Seq<char>,
    nonce: Seq<char>,
    body: Seq<char>,
) -> Seq<char> {
    line_of(timestamp) + line_of(nonce) + line_of(body)
}

/// Appends one field and its terminating newline.
fn append_field_line(s: &mut String, field: &str)
    ensures
        final(s)@ == old(s)@ + line_of(field@),
{
    s.append(field);
    s.append("\n");
    proof {
        reveal_strlit("\n");
        assert(final(s)@ =~= old(s)@ + line_of(field@));
    }
}

/// Builds the canonical request message over which a request signature is
/// computed.
pub fn canonical_message(
    method: &str,
    url_path: &str,
    timestamp: &str,
    nonce: &str,
    body: &str,
) -> (r: String)
    ensures
        r@ == spec_canonical_message(method@, url_path@, timestamp@, nonce@, body@),
{
    let mut s = String::new();
    append_field_line(&mut s, method);
    append_field_line(&mut s, url_path);
    append_field_line(&mut s, timestamp);
    append_field_line(&mut s, nonce);
    append_field_line(&mut s, body);
    proof {
        assert(s@ =~= spec_canonical_message(method@, url_path@, timestamp@, nonce@, body@));
    }
    s
}

proof fn lemma_split_first_line(a1: Seq<char>, r1: Seq<char>, a2: Seq<char>, r2: Seq<char>)
    requires
        no_newline(a1),
        no_newline(a2),
        line_of(a1) + r1 == line_of(a2) + r2,
    ensures
        a1 == a2,
        r1 == r2,
{
    let s1 = line_of(a1) + r1;
    let s2 = line_of(a2) + r2;
    assert(s1.len() == a1.len() + 1 + r1.len());
    assert(s2.len() == a2.len() + 1 + r2.len());
    assert(s1[a1.len() as int] == '\n');
    assert(s2[a2.len() as int] == '\n');
    if a1.len() < a2.len() {
        assert(s2[a1.len() as int] == a2[a1.len() as int]);
        assert(false);
    }
    if a2.len() < a1.len() {
        assert(s1[a2.len() as int] == a1[a2.len() as int]);
        assert(false);
    }
    assert(a1.len() == a2.len());
    assert forall|i: int| 0 <= i < a1.len() implies a1[i] == a2[i] by {
        assert(s1[i] == a1[i]);
        assert(s2[i] == a2[i]);
    }
    assert(a1 =~= a2);
    assert(r1.len() == r2.len());
    assert forall|i: int| 0 <= i < r1.len() implies r1[i] == r2[i] by {
        assert(s1[a1.len() + 1 + i] == r1[i]);
        assert(s2[a2.len() + 1 + i] == r2[i]);
    }
    assert(r1 =~= r2);
}

/// Canonical message construction is injective: for newline-free method,
/// path, timestamp and nonce, two equal canonical messages can only come
/// from equal field tuples — changing any field changes the signed message.
/// (The body may contain newlines; it is delimited by the fields before it
/// and the trailing newline.)
pub proof fn lemma_canonical_message_injective(
    m1: Seq<char>,
    p1: Seq<char>,
    t1: Seq<char>,
    n1: Seq<char>,
    b1: Seq<char>,
    m2: Seq<char>,
    p2: Seq<char>,
    t2: Seq<char>,
    n2: Seq<char>,
    b2: Seq<char>,
)
    requires
        no_newline(m1),
        no_newline(p1),
        no_newline(t1),
        no_newline(n1),
        no_newline(m2),
        no_newline(p2),
        no_newline(t2),
        no_newline(n2),
        spec_canonical_message(m1, p1, t1, n1, b1) == spec_canonical_message(m2, p2, t2, n2, b2),
    ensures
        m1 == m2,
        p1 == p2,
        t1 == t2,
        n1 == n2,
        b1 == b2,
{
    let rest1 = line_of(p1) + line_of(t1) + line_of(n1) + line_of(b1);
    let rest2 = line_of(p2) + line_of(t2) + line_of(n2) + line_of(b2);
    assert(spec_canonical_message(m1, p1, t1, n1, b1) =~= line_of(m1) + rest1);
    assert(spec_canonical_message(m2, p2, t2, n2, b2) =~= line_of(m2) + rest2);
    lemma_split_first_line(m1, rest1, m2, rest2);
    let rest1b = line_of(t1) + line_of(n1) + line_of(b1);
    let rest2b = line_of(t2) + line_of(n2) + line_of(b2);
    assert(rest1 =~= line_of(p1) + rest1b);
    assert(rest2 =~= line_of(p2) + rest2b);
    lemma_split_first_line(p1, rest1b, p2, rest2b);
    let rest1c = line_of(n1) + line_of(b1);
    let rest2c = line_of(n2) + line_of(b2);
    assert(rest1b =~= line_of(t1) + rest1c);
    assert(rest2b =~= line_of(t2) + rest2c);
    lemma_split_first_line(t1, rest1c, t2, rest2c);
    assert(rest1c =~= line_of(n1) + line_of(b1));
    assert(rest2c =~= line_of(n2) + line_of(b2));
    lemma_split_first_line(n1, line_of(b1), n2, line_of(b2));
    assert(b1.len() == b2.len());
    assert forall|i: int| 0 <= i < b1.len() implies b1[i] == b2[i] by {
        assert(line_of(b1)[i] == b1[i]);
        assert(line_of(b2)[i] == b2[i]);
    }
    assert(b1 =~= b2);
}

/// Signs the canonical message of the five request fields with the merchant
/// private key; the signature is transported base64-encoded.
pub fn build_signature(
    private_key_pem: &str,
    method: &str,
    url_path: &str,
    timestamp: &str,
    nonce: &str,
    body: &str,
) -> (r: DomainResult<String>)
    ensures
        r is Ok <==> rsa_sha256_sig_b64(
            private_key_pem@,
            spec_canonical_message(method@, url_path@, timestamp@, nonce@, body@),
        ) is Some,
        r matches Ok(s) ==> Some(s@) == rsa_sha256_sig_b64(
            private_key_pem@,
            spec_canonical_message(method@, url_path@, timestamp@, nonce@, body@),
        ),
        r matches Err(e) ==> e is CryptoError,
{
    let message = canonical_message(method, url_path, timestamp, nonce, body);
    match rsa_sign_b64(private_key_pem, message.as_str()) {
        Ok(signature) => Ok(signature),
        Err(_) => Err(
            DomainError::CryptoError(String::from_str("Failed to load private key or sign")),
        ),
    }
}

/// The authorization header value: the fixed scheme token, then the merchant
/// id, nonce, timestamp, certificate serial and signature, each quoted.
pub open spec fn spec_authorization_header(
    mchid: Seq<char>,
    nonce: Seq<char>,
    timestamp: Seq<char>,
    serial_no: Seq<char>,
    signature: Seq<char>,
) -> Seq<char> {
    "WECHATPAY2-SHA256-RSA2048 mchid=\""@ + mchid + "\",nonce_str=\""@ + nonce + "\",timestamp=\""@
        + timestamp + "\",serial_no=\""@ + serial_no + "\",signature=\""@ + signature + "\""@
}

/// Assembles the authorization header from its already-computed parts.
pub fn assemble_authorization(
    mchid: &str,
    nonce: &str,
    timestamp: &str,
    serial_no: &str,
    signature: &str,
) -> (r: String)
    ensures
        r@ == spec_authorization_header(mchid@, nonce@, timestamp@, serial_no@, signature@),
{
    let mut s = String::from_str("WECHATPAY2-SHA256-RSA2048 mchid=\"");
    s.append(mchid);
    s.append("\",nonce_str=\"");
    s.append(nonce);
    s.append("\",timestamp=\"");
    s.append(timestamp);
    s.append("\",serial_no=\"");
    s.append(serial_no);
    s.append("\",signature=\"");
    s.append(signature);
    s.append("\"");
    proof {
        assert(s@ =~= spec_authorization_header(
            mchid@,
            nonce@,
            timestamp@,
            serial_no@,
            signature@,
        ));
    }
    s
}

/// Whether a header is a correctly signed authorization header for the given
/// request, under some newline-free timestamp and nonce.
pub open spec fn spec_auth_header_for(
    header: Seq<char>,
    private_key: Seq<char>,
    mchid: Seq<char>,
    serial_no: Seq<char>,
    method: Seq<char>,
    url_path: Seq<char>,
    body: Seq<char>,
    timestamp: Seq<char>,
    nonce: Seq<char>,
) -> bool {
    &&& no_newline(timestamp)
    &&& no_newline(nonce)
    &&& rsa_sha256_sig_b64(
        private_key,
        spec_canonical_message(method, url_path, timestamp, nonce, body),
    ) matches Some(sig) && header == spec_authorization_header(
        mchid,
        nonce,
        timestamp,
        serial_no,
        sig,
    )
}

/// Whether a header is a correctly signed authorization header for the given
/// request, for some newline-free timestamp and nonce.
pub open spec fn spec_is_signed_auth_header(
    header: Seq<char>,
    private_key: Seq<char>,
    mchid: Seq<char>,
    serial_no: Seq<char>,
    method: Seq<char>,
    url_path: Seq<char>,
    body: Seq<char>,
) -> bool {
    exists|timestamp: Seq<char>, nonce: Seq<char>|
        #[trigger] spec_auth_header_for(
            header,
            private_key,
            mchid,
            serial_no,
            method,
            url_path,
            body,
            timestamp,
            nonce,
        )
}

/// Builds the authorization header for one outbound call: draws a fresh
/// unix-seconds timestamp and a fresh random nonce, signs the canonical
/// message, and assembles the header. Headers must never be reused across
/// requests. Success is owed whenever the merchant key can sign: the only
/// failure is a key that cannot.
pub fn build_authorization(config: &WeChatPayConfig, method: &str, url_path: &str, body: &str) -> (r:
    DomainResult<String>)
    ensures
        r matches Ok(h) ==> spec_is_signed_auth_header(
            h@,
            config.private_key@,
            config.mchid@,
            config.serial_no@,
            method@,
            url_path@,
            body@,
        ),
        (forall|m: Seq<char>|
            #[trigger] rsa_sha256_sig_b64(config.private_key@, m) is Some) ==> r is Ok,
        r matches Err(e) ==> e is CryptoError,
{
    let now = now_unix();
    let timestamp = i64_to_string(now);
    let nonce = new_uuid_hyphenated();
    proof {
        lemma_i64_str_no_newline(now as int);
        assert(no_newline(nonce@)) by {
            assert forall|i: int| 0 <= i < nonce@.len() implies nonce@[i] != '\n' by {
                assert(is_hex_lower(nonce@[i]) || nonce@[i] == '-');
            }
        }
    }
    let signature = match build_signature(
        config.private_key.as_str(),
        method,
        url_path,
        timestamp.as_str(),
        nonce.as_str(),
        body,
    ) {
        Ok(s) => s,
        Err(e) => {
            proof {
                assert(rsa_sha256_sig_b64(
                    config.private_key@,
                    spec_canonical_message(method@, url_path@, timestamp@, nonce@, body@),
                ) is None);
            }
            return Err(e);
        },
    };
    let header = assemble_authorization(
        config.mchid.as_str(),
        nonce.as_str(),
        timestamp.as_str(),
        config.serial_no.as_str(),
        signature.as_str(),
    );
    proof {
        assert(spec_auth_header_for(
            header@,
            config.private_key@,
            config.mchid@,
            config.serial_no@,
            method@,
            url_path@,
            body@,
            timestamp@,
            nonce@,
        ));
        assert(spec_is_signed_auth_header(
            header@,
            config.private_key@,
            config.mchid@,
            config.serial_no@,
            method@,
            url_path@,
            body@,
        ));
    }
    Ok(header)
}

/// The package field of mini-program payment parameters.
pub open spec fn spec_package(prepay_id: Seq<char>) -> Seq<char> {
    "prepay_id="@ + prepay_id
}

/// Builds the signed parameter set a mini-program client presents to the
/// gateway SDK: fresh timestamp and nonce, the package naming the prepay
/// token, the fixed RSA sign type, and the signature over the four-line
/// canonical message. Success is owed whenever the merchant key can sign:
/// the only failure is a key that cannot.
pub fn generate_mini_pay_params(config: &WeChatPayConfig, prepay_id: &str) -> (r: DomainResult<
    MiniProgramPayParams,
>)
    ensures
        r matches Ok(p) ==> {
            &&& p.sign_type@ == "RSA"@
            &&& p.package@ == spec_package(prepay_id@)
            &&& p.nonce_str@.len() == 32
            &&& (forall|i: int|
                0 <= i < p.nonce_str@.len() ==> is_hex_lower(#[trigger] p.nonce_str@[i]))
            &&& no_newline(p.nonce_str@)
            &&& (exists|t: int| p.time_stamp@ == spec_i64_str(t))
            &&& Some(p.pay_sign@) == rsa_sha256_sig_b64(
                config.private_key@,
                spec_mini_message(config.appid@, p.time_stamp@, p.nonce_str@, p.package@),
            )
        },
        (forall|m: Seq<char>|
            #[trigger] rsa_sha256_sig_b64(config.private_key@, m) is Some) ==> r is Ok,
        r matches Err(e) ==> e is CryptoError,
{
    let now = now_unix();
    let timestamp = i64_to_string(now);
    let nonce_str = new_uuid_simple();
    proof {
        assert(no_newline(nonce_str@)) by {
            assert forall|i: int| 0 <= i < nonce_str@.len() implies nonce_str@[i] != '\n' by {
                assert(is_hex_lower(nonce_str@[i]));
            }
        }
    }
    let mut package = String::from_str("prepay_id=");
    package.append(prepay_id);
    proof {
        assert(package@ =~= spec_package(prepay_id@));
    }
    let mut message = String::new();
    append_field_line(&mut message, config.appid.as_str());
    append_field_line(&mut message, timestamp.as_str());
    append_field_line(&mut message, nonce_str.as_str());
    append_field_line(&mut message, package.as_str());
    proof {
        assert(message@ =~= spec_mini_message(config.appid@, timestamp@, nonce_str@, package@));
    }
    let pay_sign = match rsa_sign_b64(config.private_key.as_str(), message.as_str()) {
        Ok(s) => s,
        Err(_) => {
            proof {
                assert(rsa_sha256_sig_b64(
                    config.private_key@,
                    spec_mini_message(config.appid@, timestamp@, nonce_str@, package@),
                ) is None);
            }
            return Err(
                DomainError::CryptoError(String::from_str("Failed to load private key or sign")),
            );
        },
    };
    Ok(
        MiniProgramPayParams {
            time_stamp: timestamp,
            nonce_str,
            package,
            sign_type: String::from_str("RSA"),
            pay_sign,
        },
    )
}

/// Validates a gateway response or notification signature against the
/// gateway's published platform public key: the three-line canonical message
/// of timestamp, nonce and body must carry a valid RSA-SHA256 signature.
/// On failure the content must not be trusted.
pub fn verify_response_signature(
    platform_public_key_pem: &str,
    timestamp: &str,
    nonce: &str,
    body: &str,
    signature_b64: &str,
) -> (r: DomainResult<()>)
    ensures
        r is Ok <==> rsa_sha256_verify_ok(
            platform_public_key_pem@,
            spec_verify_message(timestamp@, nonce@, body@),
            signature_b64@,
        ),
        r matches Err(e) ==> e is SignatureVerificationFailed,
{
    let mut message = String::new();
    append_field_line(&mut message, timestamp);
    append_field_line(&mut message, nonce);
    append_field_line(&mut message, body);
    proof {
        assert(message@ =~= spec_verify_message(timestamp@, nonce@, body@));
    }
    if rsa_verify_b64(platform_public_key_pem, message.as_str(), signature_b64) {
        Ok(())
    } else {
        Err(DomainError::SignatureVerificationFailed)
    }
}

} // verus!
