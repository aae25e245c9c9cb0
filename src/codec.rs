use vstd::prelude::*;

use crate::text::{free_of, split, split_on, trim, trim_text, views};

verus! {

/// UDP port on which controllers listen for the discovery probe.
pub const DISCOVERY_PORT: u16 = 18355;

/// Address to which the probe is broadcast.
pub const BROADCAST_HOST: &'static str = "255.255.255.255";

/// How long, in milliseconds, one receive waits before the listener looks at the stop flag again.
pub const RECEIVE_TIMEOUT_MS: u64 = 500;

/// The bytes of the probe token `get_xarm_addr`.
pub open spec fn probe_token() -> Seq<u8> {
    seq![103u8, 101, 116, 95, 120, 97, 114, 109, 95, 97, 100, 100, 114]
}

/// Why a reply could not be read as an announcement.
#[derive(PartialEq, Eq, Structural, Clone, Copy, Debug)]
pub enum DecodeError {
    /// The reply does not have three `:`-separated fields, or its second field
    /// does not have five `,`-separated sub-fields.
    MalformedFrame,
    /// The device type is not one of `xarm`, `XARM`, `uf`, `UF`.
    UnrecognizedType,
    /// The sender address is not of the form `host:port`.
    MalformedAddress,
}

impl DecodeError {
    /// A short description of the error.
    pub fn message(&self) -> (r: String)
        ensures
            r@ == decode_error_message(*self),
    {
        match self {
            DecodeError::MalformedFrame => "Invalid received data format".to_owned(),
            DecodeError::UnrecognizedType => "Invalid type".to_owned(),
            DecodeError::MalformedAddress => "Invalid source address format".to_owned(),
        }
    }
}

pub open spec fn decode_error_message(e: DecodeError) -> Seq<char> {
    match e {
        DecodeError::MalformedFrame => "Invalid received data format"@,
        DecodeError::UnrecognizedType => "Invalid type"@,
        DecodeError::MalformedAddress => "Invalid source address format"@,
    }
}

/// One controller's reply to the probe.
#[derive(Clone, Debug)]
pub struct DeviceAnnouncement {
    pub addr_type: String,
    pub ip: String,
    pub port: String,
    pub axis: String,
    pub device_type: String,
    pub version: String,
    pub arm_sn: String,
    pub control_sn: String,
}

/// The text of each field of an announcement.
pub struct AnnouncementView {
    pub addr_type: Seq<char>,
    pub ip: Seq<char>,
    pub port: Seq<char>,
    pub axis: Seq<char>,
    pub device_type: Seq<char>,
    pub version: Seq<char>,
    pub arm_sn: Seq<char>,
    pub control_sn: Seq<char>,
}

impl View for DeviceAnnouncement {
    type V = AnnouncementView;

    open spec fn view(&self) -> AnnouncementView {
        AnnouncementView {
            addr_type: self.addr_type@,
            ip: self.ip@,
            port: self.port@,
            axis: self.axis@,
            device_type: self.device_type@,
            version: self.version@,
            arm_sn: self.arm_sn@,
            control_sn: self.control_sn@,
        }
    }
}

/// The device types that the discovery answers for.
pub open spec fn allowed_type(t: Seq<char>) -> bool {
    t == "xarm"@ || t == "XARM"@ || t == "uf"@ || t == "UF"@
}

/// A device that calls itself `LOCAL` is reported as `localhost`; any other value is kept.
pub open spec fn normalized_addr_type(a: Seq<char>) -> Seq<char> {
    if a == "LOCAL"@ {
        "localhost"@
    } else {
        a
    }
}

/// What a reply `data` from `sender` decodes to.
pub open spec fn decode_spec(data: Seq<char>, sender: Seq<char>) -> Result<
    AnnouncementView,
    DecodeError,
> {
    let parts = split(data, ':');
    if parts.len() != 3 {
        Err(DecodeError::MalformedFrame)
    } else if !allowed_type(parts[0]) {
        Err(DecodeError::UnrecognizedType)
    } else {
        let intro = split(parts[1], ',');
        let addr = split(sender, ':');
        if intro.len() != 5 {
            Err(DecodeError::MalformedFrame)
        } else if addr.len() != 2 {
            Err(DecodeError::MalformedAddress)
        } else {
            Ok(
                AnnouncementView {
                    addr_type: normalized_addr_type(parts[2]),
                    ip: addr[0],
                    port: addr[1],
                    axis: intro[0],
                    device_type: intro[1],
                    version: intro[4],
                    arm_sn: trim(intro[2]),
                    control_sn: trim(intro[3]),
                },
            )
        }
    }
}

/// The view of a decoding result.
pub open spec fn decoded_view(r: Result<DeviceAnnouncement, DecodeError>) -> Result<
    AnnouncementView,
    DecodeError,
> {
    match r {
        Ok(a) => Ok(a@),
        Err(e) => Err(e),
    }
}

/// The payload broadcast to ask controllers to announce themselves.
pub fn encode_probe() -> (r: Vec<u8>)
    ensures
        r@ == probe_token(),
{
    let r: Vec<u8> = vec![103u8, 101, 116, 95, 120, 97, 114, 109, 95, 97, 100, 100, 114];
    assert(r@ =~= probe_token());
    r
}

fn is_allowed_type(t: &String) -> (r: bool)
    ensures
        r == allowed_type(t@),
{
    *t == "xarm".to_owned() || *t == "XARM".to_owned() || *t == "uf".to_owned() || *t
        == "UF".to_owned()
}

fn normalize_addr_type(a: &String) -> (r: String)
    ensures
        r@ == normalized_addr_type(a@),
{
    if *a == "LOCAL".to_owned() {
        "localhost".to_owned()
    } else {
        a.clone()
    }
}

/// Reads a reply `data` received from `sender` (written `host:port`).
pub fn decode_reply(data: &str, sender: &str) -> (r: Result<DeviceAnnouncement, DecodeError>)
    ensures
        decoded_view(r) == decode_spec(data@, sender@),
{
    let parts = split_on(data, ':');
    assert(views(parts@).len() == parts@.len());
    if parts.len() != 3 {
        return Err(DecodeError::MalformedFrame);
    }
    assert(parts@[0]@ == split(data@, ':')[0]);
    if !is_allowed_type(&parts[0]) {
        return Err(DecodeError::UnrecognizedType);
    }
    assert(parts@[1]@ == split(data@, ':')[1]);
    assert(parts@[2]@ == split(data@, ':')[2]);
    let intro = split_on(parts[1].as_str(), ',');
    assert(views(intro@).len() == intro@.len());
    if intro.len() != 5 {
        return Err(DecodeError::MalformedFrame);
    }
    let addr = split_on(sender, ':');
    assert(views(addr@).len() == addr@.len());
    if addr.len() != 2 {
        return Err(DecodeError::MalformedAddress);
    }
    assert(addr@[0]@ == split(sender@, ':')[0]);
    assert(addr@[1]@ == split(sender@, ':')[1]);
    assert(intro@[0]@ == split(parts@[1]@, ',')[0]);
    assert(intro@[1]@ == split(parts@[1]@, ',')[1]);
    assert(intro@[2]@ == split(parts@[1]@, ',')[2]);
    assert(intro@[3]@ == split(parts@[1]@, ',')[3]);
    assert(intro@[4]@ == split(parts@[1]@, ',')[4]);
    Ok(
        DeviceAnnouncement {
            addr_type: normalize_addr_type(&parts[2]),
            ip: addr[0].clone(),
            port: addr[1].clone(),
            axis: intro[0].clone(),
            device_type: intro[1].clone(),
            version: intro[4].clone(),
            arm_sn: trim_text(intro[2].as_str()),
            control_sn: trim_text(intro[3].as_str()),
        },
    )
}

/// The reply `TYPE:a,b,c,d,e:ADDR` that a controller sends.
pub open spec fn reply_frame(
    t: Seq<char>,
    a: Seq<char>,
    b: Seq<char>,
    c: Seq<char>,
    d: Seq<char>,
    e: Seq<char>,
    addr: Seq<char>,
) -> Seq<char> {
    t + seq![':'] + intro_field(a, b, c, d, e) + seq![':'] + addr
}

/// The five sub-fields joined by `,`.
pub open spec fn intro_field(
    a: Seq<char>,
    b: Seq<char>,
    c: Seq<char>,
    d: Seq<char>,
    e: Seq<char>,
) -> Seq<char> {
    a + seq![','] + b + seq![','] + c + seq![','] + d + seq![','] + e
}

proof fn lemma_free_join(x: Seq<char>, y: Seq<char>, sep: char, d: char)
    requires
        free_of(x, d),
        free_of(y, d),
        sep != d,
    ensures
        free_of(x + seq![sep] + y, d),
{
    let s = x + seq![sep] + y;
    assert forall|i: int| 0 <= i < s.len() implies s[i] != d by {
        if i < x.len() {
            assert(s[i] == x[i]);
        } else if i == x.len() {
            assert(s[i] == sep);
        } else {
            assert(s[i] == y[i - x.len() - 1]);
        }
    }
}

proof fn lemma_split_intro(
    a: Seq<char>,
    b: Seq<char>,
    c: Seq<char>,
    d: Seq<char>,
    e: Seq<char>,
)
    requires
        free_of(a, ','),
        free_of(b, ','),
        free_of(c, ','),
        free_of(d, ','),
        free_of(e, ','),
    ensures
        split(intro_field(a, b, c, d, e), ',') == seq![a, b, c, d, e],
{
    crate::text::lemma_split_free(a, ',');
    crate::text::lemma_split_free(b, ',');
    crate::text::lemma_split_free(c, ',');
    crate::text::lemma_split_free(d, ',');
    crate::text::lemma_split_free(e, ',');
    crate::text::lemma_split_join(a, b, ',');
    crate::text::lemma_split_join(a + seq![','] + b, c, ',');
    crate::text::lemma_split_join(a + seq![','] + b + seq![','] + c, d, ',');
    crate::text::lemma_split_join(a + seq![','] + b + seq![','] + c + seq![','] + d, e, ',');
    assert(split(intro_field(a, b, c, d, e), ',') =~= seq![a, b, c, d, e]);
}

/// A well-formed reply of an allowed type from a `host:port` sender decodes, and each
/// field of the announcement is the matching field of the reply, the serial numbers
/// trimmed and `LOCAL` read as `localhost`.
pub proof fn law_decode_well_formed(
    t: Seq<char>,
    a: Seq<char>,
    b: Seq<char>,
    c: Seq<char>,
    d: Seq<char>,
    e: Seq<char>,
    addr: Seq<char>,
    ip: Seq<char>,
    port: Seq<char>,
)
    requires
        allowed_type(t),
        free_of(a, ':') && free_of(a, ','),
        free_of(b, ':') && free_of(b, ','),
        free_of(c, ':') && free_of(c, ','),
        free_of(d, ':') && free_of(d, ','),
        free_of(e, ':') && free_of(e, ','),
        free_of(addr, ':'),
        free_of(ip, ':'),
        free_of(port, ':'),
    ensures
        decode_spec(reply_frame(t, a, b, c, d, e, addr), ip + seq![':'] + port) == Ok::<
            AnnouncementView,
            DecodeError,
        >(
            AnnouncementView {
                addr_type: normalized_addr_type(addr),
                ip: ip,
                port: port,
                axis: a,
                device_type: b,
                version: e,
                arm_sn: trim(c),
                control_sn: trim(d),
            },
        ),
{
    let body = intro_field(a, b, c, d, e);
    lemma_free_join(a, b, ',', ':');
    lemma_free_join(a + seq![','] + b, c, ',', ':');
    lemma_free_join(a + seq![','] + b + seq![','] + c, d, ',', ':');
    lemma_free_join(a + seq![','] + b + seq![','] + c + seq![','] + d, e, ',', ':');
    assert(free_of(body, ':'));
    assert(free_of(t, ':')) by {
        reveal_strlit("xarm");
        reveal_strlit("XARM");
        reveal_strlit("uf");
        reveal_strlit("UF");
    }
    crate::text::lemma_split_free(t, ':');
    crate::text::lemma_split_free(body, ':');
    crate::text::lemma_split_free(addr, ':');
    crate::text::lemma_split_free(ip, ':');
    crate::text::lemma_split_free(port, ':');
    crate::text::lemma_split_join(t, body, ':');
    crate::text::lemma_split_join(t + seq![':'] + body, addr, ':');
    crate::text::lemma_split_join(ip, port, ':');
    let parts = split(reply_frame(t, a, b, c, d, e, addr), ':');
    assert(parts =~= seq![t, body, addr]);
    assert(split(ip + seq![':'] + port, ':') =~= seq![ip, port]);
    lemma_split_intro(a, b, c, d, e);
}

/// A reply that does not have exactly three `:`-separated fields is a malformed frame.
pub proof fn law_wrong_field_count(data: Seq<char>, sender: Seq<char>)
    requires
        split(data, ':').len() != 3,
    ensures
        decode_spec(data, sender) == Err::<AnnouncementView, DecodeError>(
            DecodeError::MalformedFrame,
        ),
{
}

/// A reply of an allowed type whose second field does not have exactly five
/// `,`-separated sub-fields is a malformed frame.
pub proof fn law_wrong_intro_count(data: Seq<char>, sender: Seq<char>)
    requires
        split(data, ':').len() == 3,
        allowed_type(split(data, ':')[0]),
        split(split(data, ':')[1], ',').len() != 5,
    ensures
        decode_spec(data, sender) == Err::<AnnouncementView, DecodeError>(
            DecodeError::MalformedFrame,
        ),
{
}

/// A three-field reply whose type is outside the allowed list is rejected as such.
pub proof fn law_unknown_type(data: Seq<char>, sender: Seq<char>)
    requires
        split(data, ':').len() == 3,
        !allowed_type(split(data, ':')[0]),
    ensures
        decode_spec(data, sender) == Err::<AnnouncementView, DecodeError>(
            DecodeError::UnrecognizedType,
        ),
{
}

/// On every reply that decodes, an address type of exactly `LOCAL` becomes `localhost`
/// and any other value is passed on unchanged.
pub proof fn law_local_normalized(data: Seq<char>, sender: Seq<char>)
    requires
        decode_spec(data, sender) is Ok,
    ensures
        split(data, ':')[2] == "LOCAL"@ ==> decode_spec(data, sender)->Ok_0.addr_type
            == "localhost"@,
        split(data, ':')[2] != "LOCAL"@ ==> decode_spec(data, sender)->Ok_0.addr_type == split(
            data,
            ':',
        )[2],
{
}

} // verus!
