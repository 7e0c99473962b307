//! What the caller of a request handler gets back.
use vstd::prelude::*;

verus! {

#[verifier::external_type_specification]
#[verifier::external_body]
pub struct ExJsonError(serde_json::Error);

/// What `serde_json::to_string` writes for a JSON string: the quoted and
/// escaped form of the characters.
pub uninterp spec fn json_string_of(s: Seq<char>) -> Seq<char>;

/// Whether no character of `s` is escaped in a JSON string: none is `"`,
/// `\\` or a control character below U+0020.
pub open spec fn needs_no_escape(s: Seq<char>) -> bool {
    forall|i: int| 0 <= i < s.len() ==> s[i] != '"' && s[i] != '\\' && s[i] as u32 >= 0x20
}

/// Relies on `serde_json::to_string` on a `str`: it writes the quoted and
/// escaped JSON string into an in-memory buffer, whose writes do not fail,
/// so the result is always `Ok`. Only `"`, `\\` and characters below U+0020
/// are escaped; a string without them is written between quotes as it is.
#[verifier::external_body]
fn json_string(s: &str) -> (r: Result<String, serde_json::Error>)
    ensures
        r is Ok,
        r matches Ok(t) ==> t@ == json_string_of(s@),
        r matches Ok(t) ==> (needs_no_escape(s@) ==> t@ == seq!['"'] + s@ + seq!['"']),
{
    serde_json::to_string(s)
}

/// The decimal digit `d`.
pub open spec fn digit_char(d: nat) -> char {
    ((d + 48) as u8) as char
}

/// The decimal text of `n`, without leading zeros.
pub open spec fn decimal(n: nat) -> Seq<char>
    decreases n,
{
    if n < 10 {
        seq![digit_char(n)]
    } else {
        decimal(n / 10).push(digit_char(n % 10))
    }
}

/// The decimal text of `n`, with a leading `-` when it is negative.
pub open spec fn signed_decimal(n: int) -> Seq<char> {
    if n < 0 {
        seq!['-'] + decimal((-n) as nat)
    } else {
        decimal(n as nat)
    }
}

fn digit_text(d: u16) -> (r: &'static str)
    requires
        d < 10,
    ensures
        r@ == seq![digit_char(d as nat)],
{
    proof {
        reveal_strlit("0");
        reveal_strlit("1");
        reveal_strlit("2");
        reveal_strlit("3");
        reveal_strlit("4");
        reveal_strlit("5");
        reveal_strlit("6");
        reveal_strlit("7");
        reveal_strlit("8");
        reveal_strlit("9");
    }
    let r = match d {
        0 => "0",
        1 => "1",
        2 => "2",
        3 => "3",
        4 => "4",
        5 => "5",
        6 => "6",
        7 => "7",
        8 => "8",
        _ => "9",
    };
    assert(r@ =~= seq![digit_char(d as nat)]);
    r
}

fn decimal_text(n: u16) -> (r: String)
    ensures
        r@ == decimal(n as nat),
    decreases n,
{
    if n < 10 {
        String::from_str(digit_text(n))
    } else {
        let r = decimal_text(n / 10).concat(digit_text(n % 10));
        assert(r@ =~= decimal(n as nat));
        r
    }
}

/// The decimal text of `n`, as `i16`'s `to_string` writes it.
pub fn signed_decimal_text(n: i16) -> (r: String)
    ensures
        r@ == signed_decimal(n as int),
{
    if n < 0 {
        proof {
            reveal_strlit("-");
        }
        let magnitude: u16 = (0 - (n as i32)) as u16;
        let r = String::from_str("-").concat(decimal_text(magnitude).as_str());
        assert(r@ =~= signed_decimal(n as int));
        r
    } else {
        decimal_text(n as u16)
    }
}

/// `Queued`
pub open spec fn queued_message() -> Seq<char> {
    seq!['Q', 'u', 'e', 'u', 'e', 'd']
}

/// A status code and a message for the caller of a request handler.
pub struct QueueResponse {
    pub code: i16,
    pub message: String,
}

impl QueueResponse {
    /// The response to a request whose job was handed to the broker:
    /// code 200, message `Queued`.
    pub fn queued() -> (r: QueueResponse)
        ensures
            r.code == 200,
            r.message@ == queued_message(),
    {
        proof {
            reveal_strlit("Queued");
        }
        let r = QueueResponse { code: 200, message: String::from_str("Queued") };
        assert(r.message@ =~= queued_message());
        r
    }

    /// The JSON text of the response, `{"code":C,"message":M}`, with the code
    /// in decimal and the message as a JSON string.
    pub fn to_json(&self) -> (r: String)
        ensures
            r@ == response_text(self.code as int, self.message@),
            needs_no_escape(self.message@) ==> r@ == plain_response_text(
                self.code as int,
                self.message@,
            ),
    {
        proof {
            reveal_strlit("{\"code\":");
            reveal_strlit(",\"message\":");
            reveal_strlit("}");
        }
        let quoted = match json_string(self.message.as_str()) {
            Ok(t) => t,
            Err(_) => {
                proof {
                    assert(false);
                }
                String::new()
            },
        };
        let r = String::from_str("{\"code\":").concat(signed_decimal_text(self.code).as_str()).concat(
            ",\"message\":",
        ).concat(quoted.as_str()).concat("}");
        assert(r@ =~= response_text(self.code as int, self.message@));
        assert(needs_no_escape(self.message@) ==> r@ =~= plain_response_text(
            self.code as int,
            self.message@,
        ));
        r
    }
}

/// The JSON text of a response with `code` and the already quoted message
/// `quoted`.
pub open spec fn response_text_quoted(code: int, quoted: Seq<char>) -> Seq<char> {
    seq!['{', '"', 'c', 'o', 'd', 'e', '"', ':'] + signed_decimal(code) + seq![
        ',',
        '"',
        'm',
        'e',
        's',
        's',
        'a',
        'g',
        'e',
        '"',
        ':',
    ] + quoted + seq!['}']
}

/// The JSON text of a response with `code` and `message`.
pub open spec fn response_text(code: int, message: Seq<char>) -> Seq<char> {
    response_text_quoted(code, json_string_of(message))
}

/// The JSON text of a response with `code` and a `message` that needs no
/// escaping: the message stands between quotes as it is.
pub open spec fn plain_response_text(code: int, message: Seq<char>) -> Seq<char> {
    response_text_quoted(code, seq!['"'] + message + seq!['"'])
}

/// The `Queued` response is written `{"code":200,"message":"Queued"}`.
pub proof fn lemma_queued_response_text()
    ensures
        needs_no_escape(queued_message()),
        plain_response_text(200, queued_message()) == seq![
            '{', '"', 'c', 'o', 'd', 'e', '"', ':', '2', '0', '0', ',', '"', 'm', 'e', 's', 's',
            'a', 'g', 'e', '"', ':', '"', 'Q', 'u', 'e', 'u', 'e', 'd', '"', '}',
        ],
{
    assert(decimal(2) == seq!['2']);
    assert(decimal(20) =~= seq!['2', '0']);
    assert(decimal(200) =~= seq!['2', '0', '0']);
    assert(plain_response_text(200, queued_message()) =~= seq![
        '{', '"', 'c', 'o', 'd', 'e', '"', ':', '2', '0', '0', ',', '"', 'm', 'e', 's', 's',
        'a', 'g', 'e', '"', ':', '"', 'Q', 'u', 'e', 'u', 'e', 'd', '"', '}',
    ]);
}

} // verus!
