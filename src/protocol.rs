//! The console protocol: framing of the fixed-width requests read from a
//! connection, and the reply to each request.

use vstd::prelude::*;
use vstd::slice::slice_subrange;
use vstd::string::*;
use vstd::utf8::{decode_utf8, encode_utf8, valid_utf8};
use crate::server::{
    crlf, header_set_text, header_text, inventory_table, label_table, relabelled, status_table,
    Server,
};
use crate::stamp::LocalTime;
use crate::table::{tabulated, INVENTORY_LAYOUT, LABEL_LAYOUT, LINE_END, STATUS_LAYOUT};

verus! {

/// Start of a message.
pub const SOH: u8 = 1;

/// End of a reply.
pub const ETX: u8 = 3;

/// Bytes in a function code.
pub const CODE_LEN: usize = 4;

/// What a function code asks for.
#[derive(Clone, Copy, Debug, PartialEq, Eq, Structural)]
pub enum Command {
    /// `I201`: in-tank inventory.
    Inventory,
    /// `I205`: in-tank status.
    Status,
    /// `S503`: set a header line.
    SetHeaderLine,
    /// `S602`: set a product label.
    SetProductLabel,
    /// Any other code.
    Unsupported,
}

impl Command {
    /// The command that the four code bytes name.
    pub open spec fn of_code(code: Seq<u8>) -> Command {
        if code =~= seq![73u8, 50u8, 48u8, 49u8] {
            Command::Inventory
        } else if code =~= seq![73u8, 50u8, 48u8, 53u8] {
            Command::Status
        } else if code =~= seq![83u8, 53u8, 48u8, 51u8] {
            Command::SetHeaderLine
        } else if code =~= seq![83u8, 54u8, 48u8, 50u8] {
            Command::SetProductLabel
        } else {
            Command::Unsupported
        }
    }

    /// Whether the request carries a text after the selector; exactly these
    /// commands change the station.
    pub open spec fn has_payload(self) -> bool {
        self is SetHeaderLine || self is SetProductLabel
    }

    /// The command that the four code bytes name.
    pub fn from_code(code: &[u8]) -> (r: Command)
        requires
            code@.len() == CODE_LEN,
        ensures
            r == Command::of_code(code@),
    {
        let (a, b, c, d) = (code[0], code[1], code[2], code[3]);
        if a == 73 && b == 50 && c == 48 && d == 49 {
            Command::Inventory
        } else if a == 73 && b == 50 && c == 48 && d == 53 {
            Command::Status
        } else if a == 83 && b == 53 && c == 48 && d == 51 {
            Command::SetHeaderLine
        } else if a == 83 && b == 54 && c == 48 && d == 50 {
            Command::SetProductLabel
        } else {
            Command::Unsupported
        }
    }

    /// Whether the command changes the station.
    pub fn mutates(&self) -> (r: bool)
        ensures
            r == self.has_payload(),
    {
        match self {
            Command::SetHeaderLine | Command::SetProductLabel => true,
            _ => false,
        }
    }
}

/// A well-framed request.
#[derive(Debug)]
pub struct Request {
    /// The function code as text.
    pub code: String,
    pub command: Command,
    /// The tank, or header line, that the request addresses.
    pub selector: usize,
    /// The text of a setting.
    pub payload: Option<String>,
}

/// Where the framing of a message stands on the bytes read so far.
#[derive(Debug)]
pub enum Framing {
    /// The message is longer: read until this many bytes are in hand.
    Need(usize),
    /// The bytes cannot start a message; the stream is out of step and the
    /// connection must close without a reply.
    Malformed,
    /// A whole request.
    Complete(Request),
}

pub open spec fn is_digit(b: u8) -> bool {
    48 <= b <= 57
}

/// The value of a two-character decimal selector; a leading `+` is allowed
/// before a single digit.
pub open spec fn selector_value(hi: u8, lo: u8) -> Option<nat> {
    if is_digit(hi) && is_digit(lo) {
        Some(((hi - 48) * 10 + (lo - 48)) as nat)
    } else if hi == 43 && is_digit(lo) {
        Some((lo - 48) as nat)
    } else {
        None
    }
}

pub open spec fn code_bytes(b: Seq<u8>) -> Seq<u8> {
    b.subrange(1, 5)
}

pub open spec fn payload_bytes(b: Seq<u8>) -> Seq<u8> {
    b.subrange(7, 27)
}

/// Relies on `std::str::from_utf8`: it succeeds exactly on well-formed UTF-8,
/// and then holds the text that the bytes encode.
#[verifier::external_body]
fn utf8_text(bytes: &[u8]) -> (r: Option<String>)
    ensures
        r is Some <==> valid_utf8(bytes@),
        r is Some ==> r->0@ == decode_utf8(bytes@),
{
    match std::str::from_utf8(bytes) {
        Ok(s) => Some(s.to_string()),
        Err(_) => None,
    }
}

fn selector_of(hi: u8, lo: u8) -> (r: Option<usize>)
    ensures
        r matches Some(v) ==> selector_value(hi, lo) == Some(v as nat),
        r is None ==> selector_value(hi, lo) is None,
{
    let hi_digit = 48 <= hi && hi <= 57;
    let lo_digit = 48 <= lo && lo <= 57;
    if hi_digit && lo_digit {
        Some(((hi - 48) as usize) * 10 + ((lo - 48) as usize))
    } else if hi == 43 && lo_digit {
        Some((lo - 48) as usize)
    } else {
        None
    }
}

/// Frames the message at the start of `buf`: a start byte, a four-byte
/// function code in UTF-8, a two-digit decimal selector and, for the two
/// settings, twenty bytes of UTF-8 text. Bytes past the message are ignored.
pub fn frame(buf: &[u8]) -> (r: Framing)
    ensures
        ({
            let b = buf@;
            &&& b.len() == 0 ==> r == Framing::Need(1)
            &&& b.len() >= 1 && b[0] != SOH ==> r is Malformed
            &&& b.len() >= 1 && b[0] == SOH && b.len() < 5 ==> r == Framing::Need(5)
            &&& b.len() >= 5 && b[0] == SOH && !valid_utf8(code_bytes(b)) ==> r is Malformed
            &&& b.len() >= 5 && b[0] == SOH && valid_utf8(code_bytes(b)) && b.len() < 7 ==> r
                == Framing::Need(7)
            &&& b.len() >= 7 && b[0] == SOH && valid_utf8(code_bytes(b)) && selector_value(
                b[5],
                b[6],
            ) is None ==> r is Malformed
            &&& b.len() >= 7 && b[0] == SOH && valid_utf8(code_bytes(b)) && selector_value(
                b[5],
                b[6],
            ) is Some ==> {
                let command = Command::of_code(code_bytes(b));
                if !command.has_payload() {
                    &&& r is Complete
                    &&& r->Complete_0.code@ == decode_utf8(code_bytes(b))
                    &&& r->Complete_0.command == command
                    &&& selector_value(b[5], b[6]) == Some(r->Complete_0.selector as nat)
                    &&& r->Complete_0.payload is None
                } else if b.len() < 27 {
                    r == Framing::Need(27)
                } else if !valid_utf8(payload_bytes(b)) {
                    r is Malformed
                } else {
                    &&& r is Complete
                    &&& r->Complete_0.code@ == decode_utf8(code_bytes(b))
                    &&& r->Complete_0.command == command
                    &&& selector_value(b[5], b[6]) == Some(r->Complete_0.selector as nat)
                    &&& r->Complete_0.payload is Some
                    &&& r->Complete_0.payload->0@ == decode_utf8(payload_bytes(b))
                }
            }
        }),
{
    let n = buf.len();
    if n == 0 {
        return Framing::Need(1);
    }
    if buf[0] != SOH {
        return Framing::Malformed;
    }
    if n < 5 {
        return Framing::Need(5);
    }
    let code_part = slice_subrange(buf, 1, 5);
    let code = match utf8_text(code_part) {
        Some(c) => c,
        None => return Framing::Malformed,
    };
    if n < 7 {
        return Framing::Need(7);
    }
    let selector = match selector_of(buf[5], buf[6]) {
        Some(s) => s,
        None => return Framing::Malformed,
    };
    let command = Command::from_code(code_part);
    if !command.mutates() {
        return Framing::Complete(Request { code, command, selector, payload: None });
    }
    if n < 27 {
        return Framing::Need(27);
    }
    match utf8_text(slice_subrange(buf, 7, 27)) {
        Some(p) => Framing::Complete(Request { code, command, selector, payload: Some(p) }),
        None => Framing::Malformed,
    }
}

/// The fixed reply to an unknown function code or a refused setting:
/// `SOH 9999FF1B ETX`.
pub open spec fn unrecognized() -> Seq<u8> {
    seq![SOH, 57u8, 57u8, 57u8, 57u8, 70u8, 70u8, 49u8, 66u8, ETX]
}

pub open spec fn crlf_bytes() -> Seq<u8> {
    seq![13u8, 10u8]
}

/// A successful reply: the report header, a line end, the body, a line end
/// and the end byte.
pub open spec fn framed_reply(head: Seq<char>, body: Seq<u8>) -> Seq<u8> {
    encode_utf8(head) + crlf_bytes() + body + crlf_bytes() + seq![ETX]
}

pub open spec fn inventory_caption() -> Seq<char> {
    "IN-TANK INVENTORY"@ + crlf() + crlf()
}

pub open spec fn label_caption() -> Seq<char> {
    "TANK PRODUCT LABEL"@ + crlf() + crlf()
}

/// The reply to a request that changes nothing, on a station with the
/// given header lines and tanks.
pub open spec fn query_reply(
    header: Seq<Seq<char>>,
    tanks: Seq<crate::tank::Tank>,
    command: Command,
    selector: nat,
    code: Seq<char>,
    stamp: Seq<char>,
) -> Seq<u8> {
    let head = header_text(code, stamp, header);
    match command {
        Command::Inventory => framed_reply(
            head,
            encode_utf8(inventory_caption()) + encode_utf8(
                tabulated(INVENTORY_LAYOUT@, LINE_END@, inventory_table(tanks, selector)),
            ),
        ),
        Command::Status => framed_reply(
            head,
            encode_utf8(tabulated(STATUS_LAYOUT@, LINE_END@, status_table(tanks, selector))),
        ),
        _ => unrecognized(),
    }
}

/// Any four-byte code other than `I201`, `I205`, `S503` and `S602` gets the
/// fixed unrecognized reply, whatever the station, selector and time.
pub proof fn lemma_unknown_code_unrecognized(
    code: Seq<u8>,
    header: Seq<Seq<char>>,
    tanks: Seq<crate::tank::Tank>,
    selector: nat,
    stamp: Seq<char>,
)
    requires
        code.len() == CODE_LEN,
        code != seq![73u8, 50u8, 48u8, 49u8],
        code != seq![73u8, 50u8, 48u8, 53u8],
        code != seq![83u8, 53u8, 48u8, 51u8],
        code != seq![83u8, 54u8, 48u8, 50u8],
    ensures
        Command::of_code(code) == Command::Unsupported,
        query_reply(header, tanks, Command::of_code(code), selector, decode_utf8(code), stamp)
            == unrecognized(),
{
}

/// The fixed reply to an unknown function code or a refused setting.
pub fn unrecognized_reply() -> (r: Vec<u8>)
    ensures
        r@ == unrecognized(),
{
    let r = vec![SOH, 57u8, 57u8, 57u8, 57u8, 70u8, 70u8, 49u8, 66u8, ETX];
    assert(r@ =~= unrecognized());
    r
}

fn finish_reply(out: &mut Vec<u8>, body: &mut Vec<u8>)
    ensures
        final(out)@ == old(out)@ + crlf_bytes() + old(body)@ + crlf_bytes() + seq![ETX],
{
    let ghost start = out@;
    out.push(13u8);
    out.push(10u8);
    out.append(body);
    out.push(13u8);
    out.push(10u8);
    out.push(ETX);
    assert(out@ =~= start + crlf_bytes() + old(body)@ + crlf_bytes() + seq![ETX]);
}

/// Text bytes followed by more bytes.
fn caption_then(caption: &str, rest: Vec<u8>) -> (r: Vec<u8>)
    ensures
        r@ == encode_utf8(caption@) + rest@,
{
    let mut r = caption.as_bytes_vec();
    let mut rest = rest;
    r.append(&mut rest);
    r
}

/// The reply to a request that changes nothing: the inventory or status
/// report, or the fixed unrecognized reply for an unknown code. `now` is
/// the local time printed in the report header.
pub fn query(server: &Server, req: &Request, now: &LocalTime) -> (r: Vec<u8>)
    requires
        server.wf(),
        now.wf(),
        !req.command.has_payload(),
    ensures
        r@ == query_reply(
            server.header_lines(),
            server.tank_list(),
            req.command,
            req.selector as nat,
            req.code@,
            now.text(),
        ),
{
    proof {
        reveal_strlit("IN-TANK INVENTORY\r\n\r\n");
        reveal_strlit("IN-TANK INVENTORY");
        reveal_strlit("\r\n");
    }
    match req.command {
        Command::Inventory => {
            let mut out = server.build_header(req.code.as_str(), now);
            let table = server.i20100(req.selector);
            let caption = "IN-TANK INVENTORY\r\n\r\n";
            assert(caption@ =~= inventory_caption());
            let mut body = caption_then(caption, table);
            finish_reply(&mut out, &mut body);
            out
        },
        Command::Status => {
            let mut out = server.build_header(req.code.as_str(), now);
            let mut body = server.i205(req.selector);
            finish_reply(&mut out, &mut body);
            out
        },
        _ => unrecognized_reply(),
    }
}

/// The reply to any request, with the change that a setting makes. A
/// setting's reply carries the header as it stood before the change; the
/// confirmation of a header line ends with a line end of its own. A
/// refused setting, or one without its text, changes nothing and gets the
/// fixed unrecognized reply, as does an unknown code.
pub fn respond(server: &mut Server, req: &Request, now: &LocalTime) -> (r: Vec<u8>)
    requires
        old(server).wf(),
        now.wf(),
    ensures
        final(server).wf(),
        !req.command.has_payload() ==> {
            &&& r@ == query_reply(
                old(server).header_lines(),
                old(server).tank_list(),
                req.command,
                req.selector as nat,
                req.code@,
                now.text(),
            )
            &&& final(server).header_lines() == old(server).header_lines()
            &&& final(server).tank_list() == old(server).tank_list()
        },
        req.command is SetHeaderLine ==> if req.payload is Some && 1 <= req.selector <= 4 {
            &&& r@ == framed_reply(
                header_text(req.code@, now.text(), old(server).header_lines()),
                encode_utf8(header_set_text(req.selector as nat, req.payload->0@)) + crlf_bytes(),
            )
            &&& final(server).header_lines() == old(server).header_lines().update(
                req.selector - 1,
                req.payload->0@,
            )
            &&& final(server).tank_list() == old(server).tank_list()
        } else {
            &&& r@ == unrecognized()
            &&& final(server).header_lines() == old(server).header_lines()
            &&& final(server).tank_list() == old(server).tank_list()
        },
        req.command is SetProductLabel ==> if req.payload is Some && req.selector <= old(
            server,
        ).tank_list().len() {
            &&& r@ == framed_reply(
                header_text(req.code@, now.text(), old(server).header_lines()),
                encode_utf8(label_caption()) + encode_utf8(
                    tabulated(LABEL_LAYOUT@, LINE_END@, label_table(final(server).tank_list())),
                ),
            )
            &&& relabelled(
                old(server).tank_list(),
                final(server).tank_list(),
                req.selector as nat,
                req.payload->0@,
            )
            &&& final(server).header_lines() == old(server).header_lines()
        } else {
            &&& r@ == unrecognized()
            &&& final(server).header_lines() == old(server).header_lines()
            &&& final(server).tank_list() == old(server).tank_list()
        },
{
    proof {
        reveal_strlit("TANK PRODUCT LABEL\r\n\r\n");
        reveal_strlit("TANK PRODUCT LABEL");
        reveal_strlit("\r\n");
    }
    match req.command {
        Command::SetHeaderLine => {
            let label = match &req.payload {
                Some(p) => p.clone(),
                None => return unrecognized_reply(),
            };
            let mut out = server.build_header(req.code.as_str(), now);
            match server.s503tt(req.selector, label) {
                Ok(b) => {
                    let mut body = b;
                    body.push(13u8);
                    body.push(10u8);
                    finish_reply(&mut out, &mut body);
                    out
                },
                Err(_) => unrecognized_reply(),
            }
        },
        Command::SetProductLabel => {
            let product = match &req.payload {
                Some(p) => p.clone(),
                None => return unrecognized_reply(),
            };
            let mut out = server.build_header(req.code.as_str(), now);
            match server.s602tt(req.selector, product) {
                Ok(table) => {
                    let caption = "TANK PRODUCT LABEL\r\n\r\n";
                    assert(caption@ =~= label_caption());
                    let mut body = caption_then(caption, table);
                    finish_reply(&mut out, &mut body);
                    out
                },
                Err(_) => unrecognized_reply(),
            }
        },
        _ => query(server, req, now),
    }
}

} // verus!
