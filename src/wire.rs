use vstd::prelude::*;
use vstd::string::StringSliceAdditionalSpecFns;

verus! {

/// Width of the text region of a balance or debt request.
pub const NONACTION_PAYLOAD_LEN: usize = 50;

/// Width of the text region inside the signed block of a send request.
pub const ACTION_PAYLOAD_LEN: usize = 44;

/// Length of the request tag at the front of every message.
pub const TAG_LEN: usize = 3;

/// Total length of a balance or debt request.
pub const NONACTION_MESSAGE_LEN: usize = 53;

/// The byte used to fill a text field up to its width.
pub const PAD_BYTE: u8 = 32;

/// The three kinds of request a client can make.
#[derive(Clone, Copy, Debug, PartialEq, Eq, Structural)]
pub enum RequestKind {
    /// Query the balance of an account.
    Balance,
    /// Declare or look up a debt between two users.
    Owe,
    /// Move funds from one user to another; the only signed kind.
    Send,
}

/// Why no message was produced.
#[derive(Clone, Copy, Debug, PartialEq, Eq, Structural)]
pub enum RequestError {
    /// The operator did not approve the request.
    Declined,
    /// The request kind does not fit the message shape asked for.
    WrongKind,
}

impl RequestKind {
    /// The ASCII tag that opens a message of this kind.
    pub open spec fn tag_spec(self) -> Seq<u8> {
        match self {
            RequestKind::Balance => seq![66u8, 65u8, 76u8],
            RequestKind::Owe => seq![79u8, 87u8, 69u8],
            RequestKind::Send => seq![83u8, 69u8, 78u8],
        }
    }

    /// Requests of this kind carry a signature.
    pub open spec fn is_action(self) -> bool {
        self is Send
    }

    /// The tag of this kind.
    pub fn tag(&self) -> (r: Vec<u8>)
        ensures
            r@ == self.tag_spec(),
    {
        match self {
            RequestKind::Balance => vec![66u8, 65u8, 76u8],
            RequestKind::Owe => vec![79u8, 87u8, 69u8],
            RequestKind::Send => vec![83u8, 69u8, 78u8],
        }
    }

    /// Reads a kind from its three-byte tag.
    pub fn from_tag(t: &[u8]) -> (r: Option<RequestKind>)
        ensures
            r matches Some(k) ==> k.tag_spec() == t@,
            r is None ==> forall|k: RequestKind| k.tag_spec() != t@,
    {
        if t.len() != 3 {
            return None;
        }
        let (a, b, c) = (t[0], t[1], t[2]);
        if a == 66 && b == 65 && c == 76 {
            proof { assert(t@ =~= seq![66u8, 65u8, 76u8]); }
            Some(RequestKind::Balance)
        } else if a == 79 && b == 87 && c == 69 {
            proof { assert(t@ =~= seq![79u8, 87u8, 69u8]); }
            Some(RequestKind::Owe)
        } else if a == 83 && b == 69 && c == 78 {
            proof { assert(t@ =~= seq![83u8, 69u8, 78u8]); }
            Some(RequestKind::Send)
        } else {
            proof {
                assert forall|k: RequestKind| k.tag_spec() != t@ by {
                    if k.tag_spec() == t@ {
                        assert(t@[0] == k.tag_spec()[0]);
                        assert(t@[1] == k.tag_spec()[1]);
                        assert(t@[2] == k.tag_spec()[2]);
                    }
                }
            }
            None
        }
    }
}

/// `s` cut or right-filled with spaces to exactly `w` bytes.
pub open spec fn padded(s: Seq<u8>, w: nat) -> Seq<u8> {
    if s.len() >= w {
        s.take(w as int)
    } else {
        s + Seq::new((w - s.len()) as nat, |i: int| PAD_BYTE)
    }
}

/// Fits `text` to a field of `width` bytes: longer text is cut after
/// `width` bytes, shorter text is followed by spaces.
pub fn pad_field(text: &[u8], width: usize) -> (r: Vec<u8>)
    ensures
        r@ == padded(text@, width as nat),
        r@.len() == width,
{
    let mut r: Vec<u8> = Vec::with_capacity(width);
    let mut i: usize = 0;
    while i < width
        invariant
            i <= width,
            r@.len() == i,
            forall|j: int| 0 <= j < i ==> #[trigger] r@[j] == (if j < text@.len() { text@[j] } else { PAD_BYTE }),
        decreases width - i,
    {
        if i < text.len() {
            r.push(text[i]);
        } else {
            r.push(PAD_BYTE);
        }
        i = i + 1;
    }
    assert(r@ =~= padded(text@, width as nat));
    r
}

/// Appends all of `src` to `dst`.
pub fn append_bytes(dst: &mut Vec<u8>, src: &[u8])
    ensures
        final(dst)@ == old(dst)@ + src@,
{
    let mut i: usize = 0;
    while i < src.len()
        invariant
            i <= src@.len(),
            dst@ == old(dst)@ + src@.take(i as int),
        decreases src@.len() - i,
    {
        dst.push(src[i]);
        i = i + 1;
        assert(src@.take(i as int) =~= src@.take(i - 1) + seq![src@[i - 1]]);
    }
    assert(src@.take(src@.len() as int) =~= src@);
}

/// Text fields joined by single spaces.
pub open spec fn joined(a: Seq<u8>, b: Seq<u8>) -> Seq<u8> {
    a + seq![PAD_BYTE] + b
}

/// Payload of a balance query: the user name.
pub fn balance_payload(user: &str) -> (r: Vec<u8>)
    ensures
        r@ == user.spec_bytes(),
{
    let mut r: Vec<u8> = Vec::new();
    append_bytes(&mut r, user.as_bytes());
    r
}

/// Payload of a debt request: `"<debtor> <creditor>"`.
pub fn owe_payload(debtor: &str, creditor: &str) -> (r: Vec<u8>)
    ensures
        r@ == joined(debtor.spec_bytes(), creditor.spec_bytes()),
{
    let mut r: Vec<u8> = Vec::new();
    append_bytes(&mut r, debtor.as_bytes());
    r.push(PAD_BYTE);
    append_bytes(&mut r, creditor.as_bytes());
    r
}

/// Payload of a send request: `"<from> <to> <amount>"`.
pub fn send_payload(from: &str, to: &str, amount: &str) -> (r: Vec<u8>)
    ensures
        r@ == joined(joined(from.spec_bytes(), to.spec_bytes()), amount.spec_bytes()),
{
    let mut r: Vec<u8> = Vec::new();
    append_bytes(&mut r, from.as_bytes());
    r.push(PAD_BYTE);
    append_bytes(&mut r, to.as_bytes());
    r.push(PAD_BYTE);
    append_bytes(&mut r, amount.as_bytes());
    r
}

/// The wire form of an unsigned request.
pub open spec fn nonaction_message(kind: RequestKind, payload: Seq<u8>) -> Seq<u8> {
    kind.tag_spec() + padded(payload, NONACTION_PAYLOAD_LEN as nat)
}

/// Builds an unsigned (balance or debt) request once the operator has
/// answered: nothing is built unless `approved` holds.
pub fn user_verify_nonaction(approved: bool, kind: RequestKind, payload: &[u8]) -> (r: Result<
    Vec<u8>,
    RequestError,
>)
    ensures
        !approved ==> r == Err::<Vec<u8>, RequestError>(RequestError::Declined),
        approved && kind.is_action() ==> r == Err::<Vec<u8>, RequestError>(RequestError::WrongKind),
        approved && !kind.is_action() ==> (r matches Ok(m) && m@ == nonaction_message(kind, payload@)),
        r matches Ok(m) ==> m@.len() == NONACTION_MESSAGE_LEN,
{
    if !approved {
        return Err(RequestError::Declined);
    }
    if let RequestKind::Send = kind {
        return Err(RequestError::WrongKind);
    }
    let mut m = kind.tag();
    let body = pad_field(payload, NONACTION_PAYLOAD_LEN);
    append_bytes(&mut m, body.as_slice());
    Ok(m)
}

/// A payload that fits its field comes first in the field, followed by
/// spaces up to the width.
pub proof fn lemma_short_payload_padded(payload: Seq<u8>, w: nat)
    requires
        payload.len() <= w,
    ensures
        padded(payload, w).len() == w,
        padded(payload, w).take(payload.len() as int) == payload,
        forall|j: int| payload.len() <= j < w ==> #[trigger] padded(payload, w)[j] == PAD_BYTE,
{
    assert(padded(payload, w).take(payload.len() as int) =~= payload);
}

/// A payload longer than its field leaves exactly its first `w` bytes.
pub proof fn lemma_long_payload_truncated(payload: Seq<u8>, w: nat)
    requires
        payload.len() > w,
    ensures
        padded(payload, w) == payload.take(w as int),
        padded(payload, w).len() == w,
{
}

/// An unsigned request with a payload that fits is 53 bytes long: the tag,
/// then the payload, then spaces.
pub proof fn lemma_nonaction_short_payload(kind: RequestKind, payload: Seq<u8>)
    requires
        payload.len() <= NONACTION_PAYLOAD_LEN,
    ensures
        ({
            let m = nonaction_message(kind, payload);
            &&& m.len() == NONACTION_MESSAGE_LEN
            &&& m.subrange(TAG_LEN as int, TAG_LEN + payload.len()) == payload
            &&& forall|j: int| TAG_LEN + payload.len() <= j < NONACTION_MESSAGE_LEN ==> #[trigger] m[j] == PAD_BYTE
        }),
{
    let m = nonaction_message(kind, payload);
    lemma_short_payload_padded(payload, NONACTION_PAYLOAD_LEN as nat);
    assert(m.subrange(3, 3 + payload.len() as int) =~= payload);
    assert forall|j: int| TAG_LEN + payload.len() <= j < NONACTION_MESSAGE_LEN implies #[trigger] m[j] == PAD_BYTE by {
        assert(m[j] == padded(payload, NONACTION_PAYLOAD_LEN as nat)[j - 3]);
    }
}

/// An unsigned request with a payload longer than its field is 53 bytes
/// long and holds exactly the first 50 bytes of the payload after the tag.
pub proof fn lemma_nonaction_long_payload(kind: RequestKind, payload: Seq<u8>)
    requires
        payload.len() > NONACTION_PAYLOAD_LEN,
    ensures
        nonaction_message(kind, payload).len() == NONACTION_MESSAGE_LEN,
        nonaction_message(kind, payload).subrange(TAG_LEN as int, NONACTION_MESSAGE_LEN as int)
            == payload.take(NONACTION_PAYLOAD_LEN as int),
{
    let m = nonaction_message(kind, payload);
    assert(m.subrange(3, 53) =~= payload.take(50));
}

/// Big-endian value of a byte string.
pub open spec fn be_value(s: Seq<u8>) -> nat
    decreases s.len(),
{
    if s.len() == 0 {
        0
    } else {
        be_value(s.drop_last()) * 256 + s.last() as nat
    }
}

/// The `n` low bytes of `v`, most significant first.
pub open spec fn be_bytes(v: nat, n: nat) -> Seq<u8>
    decreases n,
{
    if n == 0 {
        Seq::empty()
    } else {
        be_bytes(v / 256, (n - 1) as nat).push((v % 256) as u8)
    }
}

/// Eight bytes of `v`, most significant first.
pub fn encode_u64_be(v: u64) -> (r: Vec<u8>)
    ensures
        r@ == be_bytes(v as nat, 8),
{
    let mut r: Vec<u8> = vec![0u8; 8];
    let mut x: u64 = v;
    let mut i: usize = 8;
    while i > 0
        invariant
            i <= 8,
            r@.len() == 8,
            be_bytes(v as nat, 8) == be_bytes(x as nat, i as nat) + r@.subrange(i as int, 8),
        decreases i,
    {
        let ghost old_r = r@;
        let ghost old_x = x;
        r.set(i - 1, (x % 256) as u8);
        x = x / 256;
        i = i - 1;
        proof {
            assert(be_bytes(old_x as nat, (i + 1) as nat) == be_bytes(x as nat, i as nat).push((old_x % 256) as u8));
            assert(r@.subrange(i as int, 8) =~= seq![(old_x % 256) as u8] + old_r.subrange(i + 1, 8));
            assert(be_bytes(x as nat, i as nat).push((old_x % 256) as u8) + old_r.subrange(i + 1, 8)
                =~= be_bytes(x as nat, i as nat) + r@.subrange(i as int, 8));
        }
    }
    assert(be_bytes(x as nat, 0) =~= Seq::<u8>::empty());
    assert(r@.subrange(0, 8) =~= r@);
    r
}

/// Reading a byte string big-endian stays below `256^len`.
proof fn lemma_be_value_bound(s: Seq<u8>)
    ensures
        be_value(s) < pow256(s.len()),
    decreases s.len(),
{
    if s.len() > 0 {
        lemma_be_value_bound(s.drop_last());
        let p = pow256((s.len() - 1) as nat);
        assert(be_value(s.drop_last()) * 256 + (s.last() as nat) < p * 256) by (nonlinear_arith)
            requires
                be_value(s.drop_last()) < p,
                s.last() < 256,
        ;
    }
}

/// `256^n`.
pub open spec fn pow256(n: nat) -> nat
    decreases n,
{
    if n == 0 {
        1
    } else {
        pow256((n - 1) as nat) * 256
    }
}

/// The signed 64-bit integer whose two's-complement form is the value `u`.
pub open spec fn as_signed64(u: nat) -> int {
    if u < 0x8000_0000_0000_0000 {
        u as int
    } else {
        u as int - 0x1_0000_0000_0000_0000
    }
}

/// Reads eight bytes, most significant first, as a two's-complement integer.
pub fn decode_i64_be(b: &[u8]) -> (r: i64)
    requires
        b@.len() == 8,
    ensures
        r as int == as_signed64(be_value(b@)),
{
    let mut u: u64 = 0;
    let mut i: usize = 0;
    while i < 8
        invariant
            i <= 8,
            b@.len() == 8,
            u as nat == be_value(b@.take(i as int)),
        decreases 8 - i,
    {
        proof {
            lemma_be_value_bound(b@.take(i as int));
            assert(pow256(i as nat) <= pow256(7)) by {
                lemma_pow256_mono(i as nat, 7);
            }
            assert(pow256(7) == 0x100_0000_0000_0000) by {
                reveal_with_fuel(pow256, 8);
            }
            assert(b@.take(i + 1).drop_last() =~= b@.take(i as int));
        }
        u = u * 256 + b[i] as u64;
        i = i + 1;
    }
    assert(b@.take(8) =~= b@);
    if u < 0x8000_0000_0000_0000 {
        u as i64
    } else {
        let low: u64 = u - 0x8000_0000_0000_0000;
        (low as i64) - 0x7fff_ffff_ffff_ffff - 1
    }
}

proof fn lemma_pow256_mono(a: nat, b: nat)
    requires
        a <= b,
    ensures
        pow256(a) <= pow256(b),
    decreases b - a,
{
    if a < b {
        lemma_pow256_mono(a, (b - 1) as nat);
    }
}

} // verus!
