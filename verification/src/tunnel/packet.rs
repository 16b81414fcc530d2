//! The packets of a tunnel as bytes: a control byte, the eight bytes of a stream identifier, and
//! the data.
use rand::RngCore;
use vstd::arithmetic::power2::pow2;
use vstd::prelude::*;
use vstd::string::*;

verus! {

/// Identifies a stream by eight bytes.
#[derive(Clone, Copy, Debug, PartialEq, Eq, Hash)]
pub struct StreamId(pub [u8; 8]);

/// What a client says first: the stream that it wants.
#[derive(Clone, Copy, Debug)]
pub struct ClientHello {
    pub id: StreamId,
}

/// Calls `rand::RngCore::fill_bytes` on the thread's generator: eight bytes at random, of which
/// nothing can be said.
#[verifier::external_body]
fn random_bytes() -> (bytes: [u8; 8]) {
    let mut bytes = [0u8; 8];
    rand::thread_rng().fill_bytes(&mut bytes);
    bytes
}

/// The number that eight bytes make, the first being the most significant.
pub open spec fn big_endian(bytes: Seq<u8>) -> int
    decreases bytes.len(),
{
    if bytes.len() == 0 {
        0
    } else {
        256 * big_endian(bytes.drop_last()) + bytes.last()
    }
}

/// The character for six bits in the URL-safe alphabet.
pub open spec fn base64_char(d: int) -> char {
    if d < 26 {
        ('A' as int + d) as char
    } else if d < 52 {
        ('a' as int + (d - 26)) as char
    } else if d < 62 {
        ('0' as int + (d - 52)) as char
    } else if d == 62 {
        '-'
    } else {
        '_'
    }
}

/// Eight bytes in the URL-safe alphabet without padding: ten characters for six bits each, from the
/// top, and one for the last four bits.
pub open spec fn base64_of_eight(bytes: Seq<u8>) -> Seq<char> {
    let v = big_endian(bytes);
    Seq::new(
        11,
        |i: int|
            base64_char(
                if i < 10 {
                    (v / pow2((58 - 6 * i) as nat) as int) % 64
                } else {
                    (v % 16) * 4
                },
            ),
    )
}

/// Calls `base64::encode_config` with `base64::URL_SAFE_NO_PAD` on eight bytes.
#[verifier::external_body]
fn base64_text(bytes: &[u8; 8]) -> (r: String)
    ensures
        r@ == base64_of_eight(bytes@),
{
    base64::encode_config(bytes, base64::URL_SAFE_NO_PAD)
}

impl StreamId {
    /// How the identifier is printed.
    pub open spec fn text(self) -> Seq<char> {
        "stream_"@ + base64_of_eight(self.0@)
    }

    /// An identifier at random.
    pub fn generate() -> (r: Self) {
        StreamId(random_bytes())
    }

    /// `stream_` followed by the identifier in base64.
    pub fn to_string(&self) -> (r: String)
        ensures
            r@ == self.text(),
    {
        let t = base64_text(&self.0);
        crate::text::join("stream_", t.as_str())
    }
}

/// The bytes that stand in place of a stream identifier where there is no stream.
pub open spec fn empty_stream() -> Seq<u8> {
    seq![0x0Fu8, 0, 0, 0, 0, 0, 0, 0]
}

/// The identifier that stands where there is no stream.
pub fn empty_stream_id() -> (r: StreamId)
    ensures
        r.0@ == empty_stream(),
{
    let r = StreamId([0x0F, 0, 0, 0, 0, 0, 0, 0]);
    assert(r.0@ =~= empty_stream());
    r
}

/// A packet.
#[derive(Clone, Debug, PartialEq, Eq)]
pub enum ControlPacket {
    Init(StreamId),
    Data(StreamId, Vec<u8>),
    Refused(StreamId),
    End(StreamId),
    Ping,
}

/// What a packet says.
#[verifier::ext_equal]
pub enum PacketView {
    Init(Seq<u8>),
    Data(Seq<u8>, Seq<u8>),
    Refused(Seq<u8>),
    End(Seq<u8>),
    Ping,
}

impl View for ControlPacket {
    type V = PacketView;

    open spec fn view(&self) -> PacketView {
        match self {
            ControlPacket::Init(sid) => PacketView::Init(sid.0@),
            ControlPacket::Data(sid, data) => PacketView::Data(sid.0@, data@),
            ControlPacket::Refused(sid) => PacketView::Refused(sid.0@),
            ControlPacket::End(sid) => PacketView::End(sid.0@),
            ControlPacket::Ping => PacketView::Ping,
        }
    }
}

/// Why bytes are no packet.
#[derive(Clone, Copy, Debug, PartialEq, Eq, Structural)]
pub enum PacketError {
    MissingStreamId,
    InvalidControlByte,
}

impl PacketError {
    /// How the error is printed.
    pub open spec fn text(self) -> Seq<char> {
        match self {
            PacketError::MissingStreamId => "invalid DataPacket, missing stream id"@,
            PacketError::InvalidControlByte => "invalid control byte in DataPacket"@,
        }
    }

    /// The error in words.
    pub fn to_string(&self) -> (r: String)
        ensures
            r@ == self.text(),
    {
        match self {
            PacketError::MissingStreamId => "invalid DataPacket, missing stream id".to_owned(),
            PacketError::InvalidControlByte => "invalid control byte in DataPacket".to_owned(),
        }
    }
}

/// The identifiers in a packet have eight bytes.
pub open spec fn well_sized(p: PacketView) -> bool {
    match p {
        PacketView::Init(sid) => sid.len() == 8,
        PacketView::Data(sid, _) => sid.len() == 8,
        PacketView::Refused(sid) => sid.len() == 8,
        PacketView::End(sid) => sid.len() == 8,
        PacketView::Ping => true,
    }
}

/// The bytes of a packet.
pub open spec fn packet_bytes(p: PacketView) -> Seq<u8> {
    match p {
        PacketView::Init(sid) => seq![1u8] + sid,
        PacketView::Data(sid, data) => seq![2u8] + sid + data,
        PacketView::Refused(sid) => seq![3u8] + sid,
        PacketView::End(sid) => seq![4u8] + sid,
        PacketView::Ping => seq![5u8] + empty_stream(),
    }
}

/// The packet that bytes are. Only the bytes of data may follow the identifier; what follows it in
/// another packet is not looked at.
pub open spec fn packet_of(bytes: Seq<u8>) -> Result<PacketView, PacketError> {
    if bytes.len() < 9 {
        Err(PacketError::MissingStreamId)
    } else {
        let sid = bytes.subrange(1, 9);
        if bytes[0] == 1 {
            Ok(PacketView::Init(sid))
        } else if bytes[0] == 2 {
            Ok(PacketView::Data(sid, bytes.skip(9)))
        } else if bytes[0] == 3 {
            Ok(PacketView::Refused(sid))
        } else if bytes[0] == 4 {
            Ok(PacketView::End(sid))
        } else if bytes[0] == 5 {
            Ok(PacketView::Ping)
        } else {
            Err(PacketError::InvalidControlByte)
        }
    }
}

/// Reading a packet's bytes gives the packet back.
pub proof fn law_packet_round_trip(p: PacketView)
    requires
        well_sized(p),
    ensures
        packet_of(packet_bytes(p)) == Ok::<PacketView, PacketError>(p),
{
    let bytes = packet_bytes(p);
    match p {
        PacketView::Init(sid) => {
            assert(bytes.subrange(1, 9) =~= sid);
        },
        PacketView::Data(sid, data) => {
            assert(bytes.subrange(1, 9) =~= sid);
            assert(bytes.skip(9) =~= data);
        },
        PacketView::Refused(sid) => {
            assert(bytes.subrange(1, 9) =~= sid);
        },
        PacketView::End(sid) => {
            assert(bytes.subrange(1, 9) =~= sid);
        },
        PacketView::Ping => {},
    }
}

/// Two packets with the same bytes are the same packet.
pub proof fn law_packet_bytes_are_unique(p: PacketView, q: PacketView)
    requires
        well_sized(p),
        well_sized(q),
        packet_bytes(p) == packet_bytes(q),
    ensures
        p == q,
{
    law_packet_round_trip(p);
    law_packet_round_trip(q);
}

fn tagged(tag: u8, id: &[u8; 8]) -> (r: Vec<u8>)
    ensures
        r@ == seq![tag] + id@,
{
    let mut r: Vec<u8> = Vec::new();
    r.push(tag);
    let mut i: usize = 0;
    assert(r@ =~= seq![tag] + id@.take(0));
    while i < 8
        invariant
            i <= 8,
            id@.len() == 8,
            r@ == seq![tag] + id@.take(i as int),
        decreases 8 - i,
    {
        r.push(id[i]);
        assert(r@ =~= seq![tag] + id@.take(i + 1));
        i = i + 1;
    }
    assert(id@.take(8) =~= id@);
    r
}

impl ControlPacket {
    /// The packet as bytes.
    pub fn serialize(self) -> (r: Vec<u8>)
        ensures
            r@ == packet_bytes(self@),
    {
        match self {
            ControlPacket::Init(sid) => tagged(1, &sid.0),
            ControlPacket::Data(sid, data) => {
                let mut r = tagged(2, &sid.0);
                let mut data = data;
                r.append(&mut data);
                r
            },
            ControlPacket::Refused(sid) => tagged(3, &sid.0),
            ControlPacket::End(sid) => tagged(4, &sid.0),
            ControlPacket::Ping => tagged(5, &empty_stream_id().0),
        }
    }

    /// Reads a packet from bytes.
    pub fn deserialize(data: &[u8]) -> (r: Result<Self, PacketError>)
        ensures
            match r {
                Ok(p) => packet_of(data@) == Ok::<PacketView, PacketError>(p@),
                Err(e) => packet_of(data@) == Err::<PacketView, PacketError>(e),
            },
    {
        if data.len() < 9 {
            return Err(PacketError::MissingStreamId);
        }
        let id: [u8; 8] = [
            data[1],
            data[2],
            data[3],
            data[4],
            data[5],
            data[6],
            data[7],
            data[8],
        ];
        let stream_id = StreamId(id);
        assert(stream_id.0@ =~= data@.subrange(1, 9));
        match data[0] {
            1 => Ok(ControlPacket::Init(stream_id)),
            2 => {
                let mut rest: Vec<u8> = Vec::new();
                let mut i: usize = 9;
                assert(rest@ =~= data@.subrange(9, 9));
                while i < data.len()
                    invariant
                        9 <= i <= data@.len(),
                        rest@ == data@.subrange(9, i as int),
                    decreases data@.len() - i,
                {
                    rest.push(data[i]);
                    assert(rest@ =~= data@.subrange(9, i + 1));
                    i = i + 1;
                }
                assert(rest@ =~= data@.skip(9));
                Ok(ControlPacket::Data(stream_id, rest))
            },
            3 => Ok(ControlPacket::Refused(stream_id)),
            4 => Ok(ControlPacket::End(stream_id)),
            5 => Ok(ControlPacket::Ping),
            _ => Err(PacketError::InvalidControlByte),
        }
    }
}

/// The control byte of a packet.
pub open spec fn control_byte(p: PacketView) -> u8 {
    match p {
        PacketView::Init(_) => 1,
        PacketView::Data(_, _) => 2,
        PacketView::Refused(_) => 3,
        PacketView::End(_) => 4,
        PacketView::Ping => 5,
    }
}

/// The bytes of a packet are its control byte, eight bytes for the stream, and the data of a packet
/// of data; no other packet has more. A sign of life has no stream, and carries fifteen and zeros.
pub proof fn law_packet_is_laid_out(p: PacketView)
    requires
        well_sized(p),
    ensures
        packet_bytes(p)[0] == control_byte(p),
        match p {
            PacketView::Init(sid) => packet_bytes(p).skip(1) == sid,
            PacketView::Data(sid, data) => packet_bytes(p).subrange(1, 9) == sid && packet_bytes(
                p,
            ).skip(9) == data,
            PacketView::Refused(sid) => packet_bytes(p).skip(1) == sid,
            PacketView::End(sid) => packet_bytes(p).skip(1) == sid,
            PacketView::Ping => packet_bytes(p).len() == 9 && packet_bytes(p)[1] == 15 && forall|
                i: int,
            |
                2 <= i < 9 ==> #[trigger] packet_bytes(p)[i] == 0,
        },
{
    match p {
        PacketView::Init(sid) => {
            assert(packet_bytes(p).skip(1) =~= sid);
        },
        PacketView::Data(sid, data) => {
            assert(packet_bytes(p).subrange(1, 9) =~= sid);
            assert(packet_bytes(p).skip(9) =~= data);
        },
        PacketView::Refused(sid) => {
            assert(packet_bytes(p).skip(1) =~= sid);
        },
        PacketView::End(sid) => {
            assert(packet_bytes(p).skip(1) =~= sid);
        },
        PacketView::Ping => {},
    }
}

/// Bytes are a packet exactly if there are nine of them and the first is a control byte. What is
/// too short is told apart from what has another first byte; what follows the stream counts in a
/// packet of data only.
pub proof fn law_bytes_are_a_packet_with_a_control_byte(bytes: Seq<u8>)
    ensures
        packet_of(bytes) is Ok <==> bytes.len() >= 9 && 1 <= bytes[0] <= 5,
        bytes.len() < 9 ==> packet_of(bytes) == Err::<PacketView, _>(PacketError::MissingStreamId),
        bytes.len() >= 9 && !(1 <= bytes[0] <= 5) ==> packet_of(bytes) == Err::<PacketView, _>(
            PacketError::InvalidControlByte,
        ),
        packet_of(bytes) matches Ok(p) ==> control_byte(p) == bytes[0] && well_sized(p)
            && packet_bytes(p).len() == (if bytes[0] == 2 {
            bytes.len()
        } else {
            9
        }) && (bytes[0] != 5 ==> packet_bytes(p) == bytes.take(packet_bytes(p).len() as int)),
{
    if bytes.len() >= 9 && 1 <= bytes[0] <= 5 && bytes[0] != 5 {
        let p = packet_of(bytes)->Ok_0;
        assert(packet_bytes(p) =~= bytes.take(packet_bytes(p).len() as int));
    }
}

} // verus!
