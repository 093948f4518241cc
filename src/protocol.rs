use vstd::prelude::*;
use crate::json::{read_string, lemma_json_string_round_trip, json_string, json_number_or_null, decimal, push_json_string, push_number_or_null, push_decimal};

verus! {

/// The client-identification metadata sent with Identify.
pub struct IdentifyProperty {
    pub os: String,
    pub browser: String,
    pub device: String,
}

/// The payload of Identify.
pub struct IdentifyData {
    pub token: String,
    pub properties: IdentifyProperty,
}

/// The Identify handshake, `{op:2, d:{token, properties}}`.
pub struct IdentifyRequest {
    pub op: u16,
    pub d: IdentifyData,
}

/// The payload of Resume.
pub struct ResumeData {
    pub token: String,
    pub session_id: String,
    pub seq: Option<u64>,
}

/// The Resume handshake, `{op:6, d:{token, session_id, seq}}`.
pub struct ResumeRequest {
    pub op: u16,
    pub d: ResumeData,
}

/// A heartbeat, `{op:1, d:<last sequence or null>}`.
pub struct Heatbeat {
    pub op: u64,
    pub d: Option<u64>,
}

/// The one handshake frame sent when a connection opens.
pub enum Handshake {
    Identify(IdentifyRequest),
    Resume(ResumeRequest),
}

impl Default for IdentifyProperty {
    fn default() -> (r: IdentifyProperty)
        ensures
            r.os@ == "linux"@,
            r.browser@ == "homenis"@,
            r.device@ == "homenis"@,
    {
        IdentifyProperty {
            os: String::from_str("linux"),
            browser: String::from_str("homenis"),
            device: String::from_str("homenis"),
        }
    }
}

impl Default for IdentifyData {
    fn default() -> (r: IdentifyData)
        ensures
            r.token@ == Seq::<char>::empty(),
            r.properties.os@ == "linux"@,
            r.properties.browser@ == "homenis"@,
            r.properties.device@ == "homenis"@,
    {
        IdentifyData { token: String::new(), properties: IdentifyProperty::default() }
    }
}

impl Default for IdentifyRequest {
    fn default() -> (r: IdentifyRequest)
        ensures
            r.op == 2,
            r.d.token@ == Seq::<char>::empty(),
            r.d.properties.os@ == "linux"@,
            r.d.properties.browser@ == "homenis"@,
            r.d.properties.device@ == "homenis"@,
    {
        IdentifyRequest { op: 2, d: IdentifyData::default() }
    }
}

impl IdentifyRequest {
    /// Sets the credential carried by the request.
    pub fn token(&mut self, token: &str) -> (r: &mut Self)
        ensures
            r.op == old(self).op,
            r.d.token@ == token@,
            r.d.properties == old(self).d.properties,
            *final(self) == *final(r),
    {
        self.d.token = String::from_str(token);
        self
    }
}

impl Heatbeat {
    /// A heartbeat carrying the last sequence number seen, if any.
    pub fn new(d: Option<u64>) -> (r: Heatbeat)
        ensures
            r.op == 1,
            r.d == d,
    {
        Heatbeat { op: 1, d }
    }
}

/// The JSON text of an Identify request.
pub open spec fn identify_text(r: IdentifyRequest) -> Seq<char> {
    "{\"op\":"@ + decimal(r.op as nat) + ",\"d\":{\"token\":"@ + json_string(r.d.token@)
        + ",\"properties\":{\"$os\":"@ + json_string(r.d.properties.os@)
        + ",\"$browser\":"@ + json_string(r.d.properties.browser@)
        + ",\"$device\":"@ + json_string(r.d.properties.device@) + "}}}"@
}

/// The JSON text of a Resume request.
pub open spec fn resume_text(r: ResumeRequest) -> Seq<char> {
    "{\"op\":"@ + decimal(r.op as nat) + ",\"d\":{\"token\":"@ + json_string(r.d.token@)
        + ",\"session_id\":"@ + json_string(r.d.session_id@)
        + ",\"seq\":"@ + json_number_or_null(r.d.seq) + "}}"@
}

/// The JSON text of a heartbeat.
pub open spec fn heartbeat_text(h: Heatbeat) -> Seq<char> {
    "{\"op\":"@ + decimal(h.op as nat) + ",\"d\":"@ + json_number_or_null(h.d) + "}"@
}

impl IdentifyRequest {
    /// The request as a JSON text frame.
    pub fn encode(&self) -> (r: String)
        ensures
            r@ == identify_text(*self),
    {
        let mut out = String::new();
        out.append("{\"op\":");
        push_decimal(&mut out, self.op as u64);
        out.append(",\"d\":{\"token\":");
        push_json_string(&mut out, self.d.token.as_str());
        out.append(",\"properties\":{\"$os\":");
        push_json_string(&mut out, self.d.properties.os.as_str());
        out.append(",\"$browser\":");
        push_json_string(&mut out, self.d.properties.browser.as_str());
        out.append(",\"$device\":");
        push_json_string(&mut out, self.d.properties.device.as_str());
        out.append("}}}");
        assert(out@ =~= identify_text(*self));
        out
    }
}

impl ResumeRequest {
    /// The request as a JSON text frame.
    pub fn encode(&self) -> (r: String)
        ensures
            r@ == resume_text(*self),
    {
        let mut out = String::new();
        out.append("{\"op\":");
        push_decimal(&mut out, self.op as u64);
        out.append(",\"d\":{\"token\":");
        push_json_string(&mut out, self.d.token.as_str());
        out.append(",\"session_id\":");
        push_json_string(&mut out, self.d.session_id.as_str());
        out.append(",\"seq\":");
        push_number_or_null(&mut out, self.d.seq);
        out.append("}}");
        assert(out@ =~= resume_text(*self));
        out
    }
}

impl Heatbeat {
    /// The heartbeat as a JSON text frame.
    pub fn encode(&self) -> (r: String)
        ensures
            r@ == heartbeat_text(*self),
    {
        let mut out = String::new();
        out.append("{\"op\":");
        push_decimal(&mut out, self.op);
        out.append(",\"d\":");
        push_number_or_null(&mut out, self.d);
        out.append("}");
        assert(out@ =~= heartbeat_text(*self));
        out
    }
}

/// What an Identify frame carries: its opcode, the credential and the three
/// identification properties.
pub struct IdentifyFields {
    pub op: nat,
    pub token: Seq<char>,
    pub os: Seq<char>,
    pub browser: Seq<char>,
    pub device: Seq<char>,
}

/// What follows `lit` at the front of `t`, where `t` starts with it.
pub open spec fn after_literal(t: Seq<char>, lit: Seq<char>) -> Option<Seq<char>> {
    if lit.len() <= t.len() && t.subrange(0, lit.len() as int) == lit {
        Some(t.subrange(lit.len() as int, t.len() as int))
    } else {
        None
    }
}

/// A field: the literal `lit`, then a JSON string; its text and what follows.
pub open spec fn read_field(t: Seq<char>, lit: Seq<char>) -> Option<(Seq<char>, Seq<char>)> {
    match after_literal(t, lit) {
        Some(u) => read_string(u),
        None => None,
    }
}

/// Decodes a text as an Identify frame,
/// `{"op":2,"d":{"token":..,"properties":{"$os":..,"$browser":..,"$device":..}}}`,
/// with the keys in that order and no white space.
pub open spec fn decode_identify(t: Seq<char>) -> Option<IdentifyFields> {
    match after_literal(t, "{\"op\":"@) {
        None => None,
        Some(t1) => match after_literal(t1, decimal(2)) {
            None => None,
            Some(t2) => match read_field(t2, ",\"d\":{\"token\":"@) {
                None => None,
                Some((token, t3)) => match read_field(t3, ",\"properties\":{\"$os\":"@) {
                    None => None,
                    Some((os, t4)) => match read_field(t4, ",\"$browser\":"@) {
                        None => None,
                        Some((browser, t5)) => match read_field(t5, ",\"$device\":"@) {
                            None => None,
                            Some((device, t6)) => if t6 == "}}}"@ {
                                Some(IdentifyFields { op: 2, token, os, browser, device })
                            } else {
                                None
                            },
                        },
                    },
                },
            },
        },
    }
}

proof fn lemma_after_literal(lit: Seq<char>, rest: Seq<char>)
    ensures
        after_literal(lit + rest, lit) == Some(rest),
{
    assert((lit + rest).subrange(0, lit.len() as int) =~= lit);
    assert((lit + rest).subrange(lit.len() as int, (lit + rest).len() as int) =~= rest);
}

proof fn lemma_read_field(lit: Seq<char>, s: Seq<char>, rest: Seq<char>)
    ensures
        read_field(lit + (json_string(s) + rest), lit) == Some((s, rest)),
{
    lemma_after_literal(lit, json_string(s) + rest);
    lemma_json_string_round_trip(s, rest);
}

/// Decoding the text of an Identify request by the frame's schema gives back
/// its opcode, credential and properties unchanged.
pub proof fn lemma_identify_round_trip(r: IdentifyRequest)
    requires
        r.op == 2,
    ensures
        decode_identify(identify_text(r)) == Some(IdentifyFields {
            op: 2,
            token: r.d.token@,
            os: r.d.properties.os@,
            browser: r.d.properties.browser@,
            device: r.d.properties.device@,
        }),
{
    let x6 = "}}}"@;
    let x5 = ",\"$device\":"@ + (json_string(r.d.properties.device@) + x6);
    let x4 = ",\"$browser\":"@ + (json_string(r.d.properties.browser@) + x5);
    let x3 = ",\"properties\":{\"$os\":"@ + (json_string(r.d.properties.os@) + x4);
    let x2 = ",\"d\":{\"token\":"@ + (json_string(r.d.token@) + x3);
    let x1 = decimal(2) + x2;
    let x0 = "{\"op\":"@ + x1;
    assert(identify_text(r) =~= x0);
    lemma_after_literal("{\"op\":"@, x1);
    lemma_after_literal(decimal(2), x2);
    lemma_read_field(",\"d\":{\"token\":"@, r.d.token@, x3);
    lemma_read_field(",\"properties\":{\"$os\":"@, r.d.properties.os@, x4);
    lemma_read_field(",\"$browser\":"@, r.d.properties.browser@, x5);
    lemma_read_field(",\"$device\":"@, r.d.properties.device@, x6);
}

} // verus!
