//! The messages of the OBS WebSocket protocol (version 5) that the
//! application sends, and the handshake that opens a connection.
use vstd::prelude::*;
use crate::status::{ObsRequest, request_type_spec};
use crate::text::{decimal_digits, digit_char, opt_view, push_char, u32_decimal};
use vstd::utf8::encode_utf8;

verus! {

/// serde_json's error, carried through as it is.
#[verifier::external_type_specification]
#[verifier::external_body]
pub struct ExJsonError(serde_json::Error);

/// serde_json's JSON value, carried through as it is.
#[verifier::external_type_specification]
#[verifier::external_body]
pub struct ExJsonValue(serde_json::Value);

/// The lowercase hexadecimal digit for `d` (0 ..= 15).
pub open spec fn hex_digit(d: nat) -> char {
    if d < 10 {
        digit_char(d)
    } else {
        ((d + 87) as u32) as char
    }
}

/// How serde_json writes one character inside a JSON string: `"` and `\`
/// and the control characters below U+0020 are escaped, the short forms
/// where JSON has them, `\u00XX` otherwise; every other character stands as it is.
pub open spec fn json_escape_char(c: char) -> Seq<char> {
    let u = c as u32;
    if c == '"' {
        seq!['\\', '"']
    } else if c == '\\' {
        seq!['\\', '\\']
    } else if u == 0x08 {
        seq!['\\', 'b']
    } else if u == 0x0C {
        seq!['\\', 'f']
    } else if c == '\n' {
        seq!['\\', 'n']
    } else if c == '\r' {
        seq!['\\', 'r']
    } else if c == '\t' {
        seq!['\\', 't']
    } else if u < 0x20 {
        seq!['\\', 'u', '0', '0', hex_digit((u / 16) as nat), hex_digit((u % 16) as nat)]
    } else {
        seq![c]
    }
}

/// The escaped contents of a JSON string.
pub open spec fn json_escape(s: Seq<char>) -> Seq<char>
    decreases s.len(),
{
    if s.len() == 0 {
        seq![]
    } else {
        json_escape(s.drop_last()) + json_escape_char(s.last())
    }
}

/// A JSON string literal for the text `s`.
pub open spec fn json_string(s: Seq<char>) -> Seq<char> {
    seq!['"'] + json_escape(s) + seq!['"']
}

/// `serde_json::to_string` on a string slice: the quoted string with
/// `"`, `\` and control characters escaped as `format_escaped_str` does;
/// writing into memory cannot fail.
#[verifier::external_body]
fn json_string_literal(s: &str) -> (r: Result<String, serde_json::Error>)
    ensures
        r is Ok,
        r matches Ok(t) ==> t@ == json_string(s@),
{
    serde_json::to_string(s)
}

/// What `serde_json::from_str::<serde_json::Value>` makes of a text, read at
/// the fields the handshake looks at: when the text is JSON, the `op` field
/// where it is an integer that fits in a `u64`, and the strings at
/// `d.authentication.challenge` and `d.authentication.salt` (`None` for a field
/// that is missing or of another kind); when it is not, the message of
/// serde_json's error (its `Display`, which names the line and column).
pub uninterp spec fn json_obs_fields(text: Seq<char>) -> Result<
    (Option<u64>, Option<Seq<char>>, Option<Seq<char>>),
    Seq<char>,
>;

/// The fields of an OBS message that the handshake reads.
pub struct ObsFields {
    pub op: Option<u64>,
    pub challenge: Option<String>,
    pub salt: Option<String>,
}

/// `serde_json::from_str::<serde_json::Value>`, with the fields of
/// `json_obs_fields` picked out by indexing and `as_u64` / `as_str`, and an
/// error turned into its message.
#[verifier::external_body]
fn read_obs_fields(text: &str) -> (r: Result<ObsFields, String>)
    ensures
        match r {
            Ok(f) => json_obs_fields(text@) == Ok::<_, Seq<char>>(
                (f.op, opt_view(f.challenge), opt_view(f.salt)),
            ),
            Err(e) => json_obs_fields(text@) == Err::<(Option<u64>, Option<Seq<char>>, Option<Seq<char>>), _>(e@),
        },
{
    match serde_json::from_str::<serde_json::Value>(text) {
        Ok(v) => {
            let auth = &v["d"]["authentication"];
            let challenge = auth["challenge"].as_str().map(str::to_owned);
            let salt = auth["salt"].as_str().map(str::to_owned);
            Ok(ObsFields { op: v["op"].as_u64(), challenge, salt })
        },
        Err(e) => Err(e.to_string()),
    }
}

/// The SHA-256 digest of a byte string.
pub uninterp spec fn sha256(data: Seq<u8>) -> Seq<u8>;

/// sha2: `Sha256::digest`, the 32-byte SHA-256 digest of `data`.
#[verifier::external_body]
fn sha256_digest(data: &[u8]) -> (d: Vec<u8>)
    ensures
        d@ == sha256(data@),
        d@.len() == 32,
{
    <sha2::Sha256 as sha2::Digest>::digest(data).to_vec()
}

/// The character of the standard base64 alphabet for the six bits `v`.
pub open spec fn base64_char(v: int) -> char {
    if v < 26 {
        (65 + v) as char
    } else if v < 52 {
        (71 + v) as char
    } else if v < 62 {
        (v - 4) as char
    } else if v == 62 {
        '+'
    } else {
        '/'
    }
}

/// The four characters of a 24-bit group `n`, six bits each, most
/// significant first.
pub open spec fn base64_group(n: int) -> Seq<char> {
    seq![base64_char(n / 262144), base64_char(n / 4096 % 64), base64_char(n / 64 % 64), base64_char(n % 64)]
}

/// Standard base64 with padding (RFC 4648, section 4): each group of three
/// bytes, read as a 24-bit number, becomes four characters, six bits each,
/// most significant first; a last group of one or two bytes is filled with
/// zero bits, and `=` takes the place of the characters it lacks.
#[verifier::opaque]
pub open spec fn base64_encoding(b: Seq<u8>) -> Seq<char>
    decreases b.len(),
{
    if b.len() == 0 {
        seq![]
    } else if b.len() == 1 {
        base64_group(b[0] * 65536).take(2) + seq!['=', '=']
    } else if b.len() == 2 {
        base64_group(b[0] * 65536 + b[1] * 256).take(3) + seq!['=']
    } else {
        base64_group(b[0] * 65536 + b[1] * 256 + b[2]) + base64_encoding(b.subrange(3, b.len() as int))
    }
}

/// The character of the standard base64 alphabet for the six bits `v`.
fn base64_digit(v: u32) -> (c: char)
    requires
        v < 64,
    ensures
        c == base64_char(v as int),
{
    if v < 26 {
        ((65 + v) as u8) as char
    } else if v < 52 {
        ((71 + v) as u8) as char
    } else if v < 62 {
        ((v - 4) as u8) as char
    } else if v == 62 {
        '+'
    } else {
        '/'
    }
}

/// The encoding of a byte string, one group at a time.
proof fn lemma_base64_step(b: Seq<u8>)
    ensures
        b.len() == 0 ==> base64_encoding(b) == Seq::<char>::empty(),
        b.len() == 1 ==> base64_encoding(b) == base64_group(b[0] * 65536).take(2) + seq!['=', '='],
        b.len() == 2 ==> base64_encoding(b) == base64_group(b[0] * 65536 + b[1] * 256).take(3)
            + seq!['='],
        b.len() >= 3 ==> base64_encoding(b) == base64_group(b[0] * 65536 + b[1] * 256 + b[2])
            + base64_encoding(b.subrange(3, b.len() as int)),
{
    reveal_with_fuel(base64_encoding, 1);
}

/// Appends the four characters of the 24-bit group `n`.
fn push_group(s: &mut String, n: u32)
    requires
        n < 16777216,
    ensures
        final(s)@ == old(s)@ + base64_group(n as int),
{
    push_char(s, base64_digit(n / 262144));
    push_char(s, base64_digit(n / 4096 % 64));
    push_char(s, base64_digit(n / 64 % 64));
    push_char(s, base64_digit(n % 64));
    assert(s@ =~= old(s)@ + base64_group(n as int));
}

/// Standard base64 with padding.
fn base64_standard(data: &[u8]) -> (s: String)
    ensures
        s@ == base64_encoding(data@),
{
    let len = data.len();
    let mut s = String::new();
    let mut i: usize = 0;
    assert(data@.subrange(0, len as int) =~= data@);
    while len - i >= 3
        invariant
            len == data@.len(),
            i <= len,
            s@ + base64_encoding(data@.subrange(i as int, len as int)) == base64_encoding(data@),
        decreases len - i,
    {
        let ghost rest = data@.subrange(i as int, len as int);
        let ghost before = s@;
        proof {
            lemma_base64_step(rest);
            assert(rest.subrange(3, rest.len() as int) =~= data@.subrange(i + 3, len as int));
            assert(rest[0] == data@[i as int] && rest[1] == data@[i + 1] && rest[2] == data@[i + 2]);
        }
        let n: u32 = (data[i] as u32) * 65536 + (data[i + 1] as u32) * 256 + (data[i + 2] as u32);
        push_group(&mut s, n);
        proof {
            let g = base64_group(n as int);
            let tail = base64_encoding(data@.subrange(i + 3, len as int));
            assert(before + g + tail =~= before + (g + tail));
        }
        i = i + 3;
    }
    let ghost rest = data@.subrange(i as int, len as int);
    proof {
        lemma_base64_step(rest);
    }
    if len - i == 1 {
        let ghost before = s@;
        assert(rest[0] == data@[i as int]);
        let n: u32 = (data[i] as u32) * 65536;
        push_char(&mut s, base64_digit(n / 262144));
        push_char(&mut s, base64_digit(n / 4096 % 64));
        push_char(&mut s, '=');
        push_char(&mut s, '=');
        assert(s@ =~= before + base64_encoding(rest));
    } else if len - i == 2 {
        let ghost before = s@;
        assert(rest[0] == data@[i as int] && rest[1] == data@[i + 1]);
        let n: u32 = (data[i] as u32) * 65536 + (data[i + 1] as u32) * 256;
        push_char(&mut s, base64_digit(n / 262144));
        push_char(&mut s, base64_digit(n / 4096 % 64));
        push_char(&mut s, base64_digit(n / 64 % 64));
        push_char(&mut s, '=');
        assert(s@ =~= before + base64_encoding(rest));
    } else {
        assert(s@ + base64_encoding(rest) =~= s@);
    }
    s
}

/// The authentication string of OBS WebSocket 5 for a password and the
/// `salt` and `challenge` of OBS's `Hello`: the base64 SHA-256 of the UTF-8
/// bytes of the password followed by the salt gives the secret; the base64
/// SHA-256 of the secret followed by the challenge is the answer.
pub open spec fn obs_auth_response(password: Seq<char>, salt: Seq<char>, challenge: Seq<char>) -> Seq<char> {
    let secret = base64_encoding(sha256(encode_utf8(password + salt)));
    base64_encoding(sha256(encode_utf8(secret + challenge)))
}

/// The answer to OBS's authentication challenge for `password`.
pub fn obs_authentication(password: &str, salt: &str, challenge: &str) -> (a: String)
    ensures
        a@ == obs_auth_response(password@, salt@, challenge@),
{
    let salted = password.to_owned().concat(salt);
    let digest = sha256_digest(salted.as_str().as_bytes());
    let secret = base64_standard(digest.as_slice());
    let answer = secret.concat(challenge);
    let digest2 = sha256_digest(answer.as_str().as_bytes());
    base64_standard(digest2.as_slice())
}

/// The WebSocket URL of OBS on this machine at `port`.
pub open spec fn obs_url_spec(port: u16) -> Seq<char> {
    "ws://127.0.0.1:"@ + decimal_digits(port as nat)
}

/// The WebSocket URL of OBS on this machine at `port`.
pub fn obs_url(port: u16) -> (u: String)
    ensures
        u@ == obs_url_spec(port),
{
    "ws://127.0.0.1:".to_owned().concat(u32_decimal(port as u32).as_str())
}

/// The text `s` as a JSON string literal.
pub fn quote_json(s: &str) -> (t: String)
    ensures
        t@ == json_string(s@),
{
    match json_string_literal(s) {
        Ok(t) => t,
        Err(_) => String::new(),
    }
}

/// The request id of the plain requests.
pub open spec fn command_request_id() -> Seq<char> {
    "tauri-lol-obs-001"@
}

/// The request id of `SetRecordDirectory`.
pub open spec fn directory_request_id() -> Seq<char> {
    "tauri-lol-obs-002"@
}

/// The `Identify` message (op 1) of RPC version 1, with the given
/// authentication string or without one (`null`).
pub open spec fn identify_message_spec(auth: Option<Seq<char>>) -> Seq<char> {
    match auth {
        Some(a) => "{\"d\":{\"authentication\":"@ + json_string(a) + ",\"rpcVersion\":1},\"op\":1}"@,
        None => "{\"d\":{\"authentication\":null,\"rpcVersion\":1},\"op\":1}"@,
    }
}

/// A `Request` message (op 6) without request data.
pub open spec fn request_message_spec(request_type: Seq<char>, request_id: Seq<char>) -> Seq<char> {
    "{\"d\":{\"requestId\":"@ + json_string(request_id) + ",\"requestType\":"@ + json_string(
        request_type,
    ) + "},\"op\":6}"@
}

/// The `SetRecordDirectory` request (op 6) for the directory `dir`.
pub open spec fn record_directory_message_spec(dir: Seq<char>) -> Seq<char> {
    "{\"d\":{\"requestData\":{\"recordDirectory\":"@ + json_string(dir) + "},\"requestId\":"@
        + json_string(directory_request_id()) + ",\"requestType\":"@ + json_string(
        "SetRecordDirectory"@,
    ) + "},\"op\":6}"@
}

/// The `Identify` message that answers OBS's `Hello`, carrying `auth`
/// where there is one.
pub fn identify_message(auth: Option<&str>) -> (m: String)
    ensures
        m@ == identify_message_spec(
            match auth {
                Some(a) => Some(a@),
                None => None,
            },
        ),
{
    match auth {
        Some(a) => "{\"d\":{\"authentication\":".to_owned().concat(quote_json(a).as_str()).concat(
            ",\"rpcVersion\":1},\"op\":1}",
        ),
        None => "{\"d\":{\"authentication\":null,\"rpcVersion\":1},\"op\":1}".to_owned(),
    }
}

/// A request of the given type and id, without request data.
pub fn request_message(request_type: &str, request_id: &str) -> (m: String)
    ensures
        m@ == request_message_spec(request_type@, request_id@),
{
    "{\"d\":{\"requestId\":".to_owned().concat(quote_json(request_id).as_str()).concat(
        ",\"requestType\":",
    ).concat(quote_json(request_type).as_str()).concat("},\"op\":6}")
}

/// The message that sends `req` to OBS, with the request id of plain requests.
pub fn command_message(req: ObsRequest) -> (m: String)
    ensures
        m@ == request_message_spec(request_type_spec(req), command_request_id()),
{
    request_message(req.request_type(), "tauri-lol-obs-001")
}

/// The message that sets OBS's recording directory.
pub fn record_directory_message(dir: &str) -> (m: String)
    ensures
        m@ == record_directory_message_spec(dir@),
{
    "{\"d\":{\"requestData\":{\"recordDirectory\":".to_owned().concat(quote_json(dir).as_str()).concat(
        "},\"requestId\":",
    ).concat(quote_json("tauri-lol-obs-002").as_str()).concat(",\"requestType\":").concat(
        quote_json("SetRecordDirectory").as_str(),
    ).concat("},\"op\":6}")
}

/// A message read from the WebSocket: a text frame, or anything else (another
/// kind of frame, a read error, or the end of the stream).
pub enum ObsIncoming {
    Text(String),
    Other,
}

/// Where the opening handshake stands.
#[derive(Debug, Clone, Copy, PartialEq, Eq, Structural)]
pub enum HandshakeStage {
    AwaitHello,
    AwaitIdentified,
    Identified,
}

/// The op code OBS must send in the given stage, and the two errors that
/// answer a wrong op code or a message that is no text.
pub open spec fn expected_op(stage: HandshakeStage) -> u64 {
    match stage {
        HandshakeStage::AwaitHello => 0,
        _ => 2,
    }
}

/// The error for a message with the wrong op code.
pub open spec fn wrong_op_error(stage: HandshakeStage) -> Seq<char> {
    match stage {
        HandshakeStage::AwaitHello => "No Hello from OBS"@,
        _ => "No Identified from OBS"@,
    }
}

/// The error for a message that is no text.
pub open spec fn missing_error(stage: HandshakeStage) -> Seq<char> {
    match stage {
        HandshakeStage::AwaitHello => "Failed to receive Hello"@,
        _ => "Failed to receive Identified"@,
    }
}

/// The text of an incoming message, if it is a text message.
pub open spec fn incoming_view(m: ObsIncoming) -> Option<Seq<char>> {
    match m {
        ObsIncoming::Text(t) => Some(t@),
        ObsIncoming::Other => None,
    }
}

/// The `authentication` that answers a `Hello` with the given challenge and
/// salt: none unless OBS asks for it and a password is set.
pub open spec fn hello_answer(
    password: Option<Seq<char>>,
    challenge: Option<Seq<char>>,
    salt: Option<Seq<char>>,
) -> Option<Seq<char>> {
    match (password, challenge, salt) {
        (Some(p), Some(c), Some(s)) => Some(obs_auth_response(p, s, c)),
        _ => None,
    }
}

/// The outcome of one handshake step: the next stage and the message to
/// send, or the text of the error.
pub open spec fn handshake_outcome(
    stage: HandshakeStage,
    msg: Option<Seq<char>>,
    password: Option<Seq<char>>,
) -> Result<(HandshakeStage, Option<Seq<char>>), Seq<char>> {
    if stage == HandshakeStage::Identified {
        Ok((stage, None))
    } else {
        match msg {
            None => Err(missing_error(stage)),
            Some(t) => match json_obs_fields(t) {
                Err(e) => Err(e),
                Ok((op, challenge, salt)) => if op == Some(expected_op(stage)) {
                    if stage == HandshakeStage::AwaitHello {
                        Ok(
                            (
                                HandshakeStage::AwaitIdentified,
                                Some(identify_message_spec(hello_answer(password, challenge, salt))),
                            ),
                        )
                    } else {
                        Ok((HandshakeStage::Identified, None))
                    }
                } else {
                    Err(wrong_op_error(stage))
                },
            },
        }
    }
}

/// OBS's `Hello` is answered with an `Identify` that carries the answer
/// to its challenge, derived from the password set, when the `Hello` asks for
/// authentication; without a password, or when OBS does not ask, the
/// `Identify` carries `null`.
pub proof fn law_hello_answered_with_password(hello: Seq<char>, password: Option<Seq<char>>)
    requires
        json_obs_fields(hello) is Ok,
        json_obs_fields(hello)->Ok_0.0 == Some(0u64),
    ensures
        ({
            let (_, challenge, salt) = json_obs_fields(hello)->Ok_0;
            let out = handshake_outcome(HandshakeStage::AwaitHello, Some(hello), password);
            &&& (password is Some && challenge is Some && salt is Some) ==> out == Ok::<
                _,
                Seq<char>,
            >(
                (
                    HandshakeStage::AwaitIdentified,
                    Some(
                        identify_message_spec(
                            Some(obs_auth_response(password->0, salt->0, challenge->0)),
                        ),
                    ),
                ),
            )
            &&& !(password is Some && challenge is Some && salt is Some) ==> out == Ok::<
                _,
                Seq<char>,
            >((HandshakeStage::AwaitIdentified, Some(identify_message_spec(None))))
        }),
{
}

/// One step of the handshake: OBS says `Hello` (op 0), the client answers
/// with `Identify`, authenticated with `password` where the `Hello` asks for
/// it, and OBS confirms with `Identified` (op 2). Returns the next stage and
/// the message to send, if any; a message that is no text, is no JSON or
/// carries another op code ends the handshake with an error. A finished
/// handshake ignores further messages.
pub fn handshake_step(stage: HandshakeStage, msg: &ObsIncoming, password: Option<&str>) -> (r: Result<
    (HandshakeStage, Option<String>),
    String,
>)
    ensures
        match (
            r,
            handshake_outcome(
                stage,
                incoming_view(*msg),
                match password {
                    Some(p) => Some(p@),
                    None => None,
                },
            ),
        ) {
            (Ok((next, send)), Ok((next2, send2))) => next == next2 && opt_view(send) == send2,
            (Err(e), Err(text)) => e@ == text,
            _ => false,
        },
{
    if stage == HandshakeStage::Identified {
        return Ok((stage, None));
    }
    let expected: u64 = if stage == HandshakeStage::AwaitHello {
        0
    } else {
        2
    };
    match msg {
        ObsIncoming::Other => {
            if stage == HandshakeStage::AwaitHello {
                Err("Failed to receive Hello".to_owned())
            } else {
                Err("Failed to receive Identified".to_owned())
            }
        },
        ObsIncoming::Text(t) => match read_obs_fields(t.as_str()) {
            Err(e) => Err(e),
            Ok(fields) => {
                let ok = match fields.op {
                    Some(v) => v == expected,
                    None => false,
                };
                if !ok {
                    if stage == HandshakeStage::AwaitHello {
                        Err("No Hello from OBS".to_owned())
                    } else {
                        Err("No Identified from OBS".to_owned())
                    }
                } else if stage == HandshakeStage::AwaitHello {
                    let reply = match (password, &fields.challenge, &fields.salt) {
                        (Some(p), Some(c), Some(salt)) => {
                            let auth = obs_authentication(p, salt.as_str(), c.as_str());
                            identify_message(Some(auth.as_str()))
                        },
                        _ => identify_message(None),
                    };
                    Ok((HandshakeStage::AwaitIdentified, Some(reply)))
                } else {
                    Ok((HandshakeStage::Identified, None))
                }
            },
        },
    }
}

/// `serde_json::from_str::<serde_json::Value>`, the same parse that
/// `json_obs_fields` reads: it succeeds exactly when that does, and an error
/// comes back as the same message.
#[verifier::external_body]
fn parse_json_value(text: &str) -> (r: Result<serde_json::Value, String>)
    ensures
        match r {
            Ok(_) => json_obs_fields(text@) is Ok,
            Err(e) => json_obs_fields(text@) == Err::<
                (Option<u64>, Option<Seq<char>>, Option<Seq<char>>),
                _,
            >(e@),
        },
{
    serde_json::from_str::<serde_json::Value>(text).map_err(|e| e.to_string())
}

/// OBS's answer to a request, read from the message that follows it: the
/// parsed JSON of a text message; `No response` for anything else, and
/// serde_json's message for a text that is no JSON.
pub fn request_response(msg: &ObsIncoming) -> (r: Result<serde_json::Value, String>)
    ensures
        match incoming_view(*msg) {
            None => r matches Err(e) && e@ == "No response"@,
            Some(t) => {
                &&& (r is Ok <==> json_obs_fields(t) is Ok)
                &&& (r matches Err(e) ==> json_obs_fields(t) == Err::<
                    (Option<u64>, Option<Seq<char>>, Option<Seq<char>>),
                    _,
                >(e@))
            },
        },
{
    match msg {
        ObsIncoming::Text(t) => parse_json_value(t.as_str()),
        ObsIncoming::Other => Err("No response".to_owned()),
    }
}

} // verus!
