use vstd::prelude::*;

verus! {

/// The four little-endian bytes of a 32-bit word.
pub open spec fn le32(w: u32) -> Seq<u8> {
    seq![
        (w & 0xff) as u8,
        ((w >> 8u32) & 0xff) as u8,
        ((w >> 16u32) & 0xff) as u8,
        ((w >> 24u32) & 0xff) as u8,
    ]
}

/// The two little-endian bytes of a 16-bit word.
pub open spec fn le16(w: u16) -> Seq<u8> {
    seq![(w & 0xff) as u8, (w >> 8) as u8]
}

/// The little-endian 32-bit word made of four bytes.
pub open spec fn word_of(b0: u8, b1: u8, b2: u8, b3: u8) -> u32 {
    (b0 as u32) | ((b1 as u32) << 8u32) | ((b2 as u32) << 16u32) | ((b3 as u32) << 24u32)
}

fn push_le32(out: &mut Vec<u8>, w: u32)
    ensures
        final(out)@ == old(out)@ + le32(w),
{
    out.push((w & 0xff) as u8);
    out.push(((w >> 8) & 0xff) as u8);
    out.push(((w >> 16) & 0xff) as u8);
    out.push(((w >> 24) & 0xff) as u8);
    assert(final(out)@ =~= old(out)@ + le32(w));
}

fn push_le16(out: &mut Vec<u8>, w: u16)
    ensures
        final(out)@ == old(out)@ + le16(w),
{
    out.push((w & 0xff) as u8);
    out.push((w >> 8) as u8);
    assert(final(out)@ =~= old(out)@ + le16(w));
}

fn read_le32(b: &Vec<u8>, at: usize) -> (r: u32)
    requires
        at <= 12,
        at + 4 <= b@.len(),
    ensures
        r == word_of(b@[at as int], b@[at + 1], b@[at + 2], b@[at + 3]),
{
    (b[at] as u32) | ((b[at + 1] as u32) << 8) | ((b[at + 2] as u32) << 16) | ((b[at + 3]
        as u32) << 24)
}

/// Reading back the little-endian bytes of a word gives the word.
pub proof fn lemma_le32_round_trip(w: u32)
    ensures
        word_of(le32(w)[0], le32(w)[1], le32(w)[2], le32(w)[3]) == w,
{
    assert((w & 0xff) <= 0xff && ((w >> 8u32) & 0xff) <= 0xff && ((w >> 16u32) & 0xff) <= 0xff
        && ((w >> 24u32) & 0xff) <= 0xff) by (bit_vector);
    assert(((w & 0xff) | (((w >> 8u32) & 0xff) << 8u32) | (((w >> 16u32) & 0xff) << 16u32) | ((
    (w >> 24u32) & 0xff) << 24u32)) == w) by (bit_vector);
}

/// A UHCI Transfer Descriptor: 32 bytes in memory, of which the first four
/// little-endian words are meaningful and the rest is reserved (zero).
#[derive(Clone, Copy, Debug, PartialEq, Eq, Structural)]
pub struct Td {
    /// Next link; bit0 Terminate, bit1 QH selector, bit2 depth-first.
    pub link_ptr: u32,
    /// Status and control; bit23 Active, bit25 interrupt on complete.
    pub ctrl_sts: u32,
    /// MaxLength-1, endpoint, device address and PID.
    pub token: u32,
    /// Physical address of the data buffer, or 0.
    pub buffer: u32,
}

/// The 32 bytes that hold a TD in memory.
pub open spec fn td_bytes(td: Td) -> Seq<u8> {
    le32(td.link_ptr) + le32(td.ctrl_sts) + le32(td.token) + le32(td.buffer) + Seq::new(
        16,
        |i: int| 0u8,
    )
}

impl Td {
    /// The in-memory image of the descriptor.
    pub fn to_bytes(&self) -> (r: Vec<u8>)
        ensures
            r@ == td_bytes(*self),
            r@.len() == 32,
    {
        let mut out: Vec<u8> = Vec::new();
        push_le32(&mut out, self.link_ptr);
        push_le32(&mut out, self.ctrl_sts);
        push_le32(&mut out, self.token);
        push_le32(&mut out, self.buffer);
        let mut i: usize = 0;
        while i < 16
            invariant
                i <= 16,
                out@ == le32(self.link_ptr) + le32(self.ctrl_sts) + le32(self.token) + le32(
                    self.buffer,
                ) + Seq::new(i as nat, |j: int| 0u8),
            decreases 16 - i,
        {
            out.push(0u8);
            i += 1;
            assert(out@ =~= le32(self.link_ptr) + le32(self.ctrl_sts) + le32(self.token) + le32(
                self.buffer,
            ) + Seq::new(i as nat, |j: int| 0u8));
        }
        out
    }

    /// Reads a descriptor back from the first 16 bytes of its in-memory image.
    pub fn from_bytes(b: &Vec<u8>) -> (r: Td)
        requires
            b@.len() >= 16,
        ensures
            r.link_ptr == word_of(b@[0], b@[1], b@[2], b@[3]),
            r.ctrl_sts == word_of(b@[4], b@[5], b@[6], b@[7]),
            r.token == word_of(b@[8], b@[9], b@[10], b@[11]),
            r.buffer == word_of(b@[12], b@[13], b@[14], b@[15]),
    {
        Td {
            link_ptr: read_le32(b, 0),
            ctrl_sts: read_le32(b, 4),
            token: read_le32(b, 8),
            buffer: read_le32(b, 12),
        }
    }
}

/// Writing a TD to memory and reading it back yields the same descriptor,
/// and the image is its four words in little-endian order.
pub proof fn lemma_td_round_trip(td: Td)
    ensures
        td_bytes(td).len() == 32,
        ({
            let b = td_bytes(td);
            word_of(b[0], b[1], b[2], b[3]) == td.link_ptr && word_of(b[4], b[5], b[6], b[7])
                == td.ctrl_sts && word_of(b[8], b[9], b[10], b[11]) == td.token && word_of(
                b[12],
                b[13],
                b[14],
                b[15],
            ) == td.buffer
        }),
{
    lemma_le32_round_trip(td.link_ptr);
    lemma_le32_round_trip(td.ctrl_sts);
    lemma_le32_round_trip(td.token);
    lemma_le32_round_trip(td.buffer);
    let b = td_bytes(td);
    assert(b.subrange(0, 4) =~= le32(td.link_ptr));
    assert(b.subrange(4, 8) =~= le32(td.ctrl_sts));
    assert(b.subrange(8, 12) =~= le32(td.token));
    assert(b.subrange(12, 16) =~= le32(td.buffer));
}

/// A UHCI Queue Head.
#[derive(Clone, Copy, Debug, PartialEq, Eq, Structural)]
pub struct Qh {
    /// Next queue head; 1 when terminating.
    pub head_ptr: u32,
    /// The TD chain to execute.
    pub element_ptr: u32,
}

/// The 8 bytes that hold a QH in memory.
pub open spec fn qh_bytes(qh: Qh) -> Seq<u8> {
    le32(qh.head_ptr) + le32(qh.element_ptr)
}

impl Qh {
    /// The in-memory image of the queue head.
    pub fn to_bytes(&self) -> (r: Vec<u8>)
        ensures
            r@ == qh_bytes(*self),
    {
        let mut out: Vec<u8> = Vec::new();
        push_le32(&mut out, self.head_ptr);
        push_le32(&mut out, self.element_ptr);
        out
    }
}

/// A USB control request, the 8-byte payload of a SETUP stage.
#[derive(Clone, Copy, Debug, PartialEq, Eq, Structural)]
pub struct Setup {
    pub request_type: u8,
    pub request: u8,
    pub value: u16,
    pub index: u16,
    pub len: u16,
}

/// The 8 bytes of a setup packet as sent on the wire.
pub open spec fn setup_bytes(s: Setup) -> Seq<u8> {
    seq![s.request_type, s.request] + le16(s.value) + le16(s.index) + le16(s.len)
}

impl Setup {
    /// The wire image of the request.
    pub fn to_bytes(&self) -> (r: Vec<u8>)
        ensures
            r@ == setup_bytes(*self),
            r@.len() == 8,
    {
        let mut out: Vec<u8> = Vec::new();
        out.push(self.request_type);
        out.push(self.request);
        push_le16(&mut out, self.value);
        push_le16(&mut out, self.index);
        push_le16(&mut out, self.len);
        assert(out@ =~= setup_bytes(*self));
        out
    }
}

} // verus!
