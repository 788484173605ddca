//! The cross-chain message that this parachain exchanges with its siblings, and its SCALE
//! wire format: one byte for the variant, then the fields in order, each in its own SCALE
//! encoding (an account id as its 32 raw bytes, a balance as 16 little-endian bytes).
use vstd::prelude::*;

verus! {

broadcast use vstd::array::group_array_axioms;

/// An account id of the runtime: 32 raw bytes.
pub type AccountId = [u8; 32];

/// A balance of the runtime.
pub type Balance = u128;

/// A message between parachains.
#[derive(Clone, Debug, PartialEq, Eq)]
pub enum XCMPMessage<XAccountId, XBalance> {
    /// Transfer tokens to the given account from the Parachain account.
    TransferToken(XAccountId, XBalance),
}

/// Why bytes do not decode to a message.
#[derive(Clone, Copy, Debug, PartialEq, Eq)]
pub enum MessageDecodeError {
    /// The input ends before the message does.
    InputTooShort,
    /// The first byte names no variant of the message.
    UnknownVariant(u8),
}

/// The variant byte of `TransferToken`.
pub const TRANSFER_TOKEN_INDEX: u8 = 0;

/// The length of an encoded message: the variant byte, 32 account bytes, 16 balance bytes.
pub const ENCODED_LEN: usize = 49;

#[verifier::external_type_specification]
#[verifier::external_body]
pub struct ExCodecError(parity_scale_codec::Error);

/// `n` as `len` little-endian bytes (the higher bytes of `n` are dropped).
pub open spec fn le_bytes(n: nat, len: nat) -> Seq<u8>
    decreases len,
{
    if len == 0 {
        Seq::empty()
    } else {
        seq![(n % 256) as u8] + le_bytes(n / 256, (len - 1) as nat)
    }
}

/// The number that the little-endian bytes `s` stand for.
pub open spec fn from_le(s: Seq<u8>) -> nat
    decreases s.len(),
{
    if s.len() == 0 {
        0
    } else {
        s[0] as nat + 256 * from_le(s.drop_first())
    }
}

/// `256` to the power `len`.
pub open spec fn pow256(len: nat) -> nat
    decreases len,
{
    if len == 0 {
        1
    } else {
        256 * pow256((len - 1) as nat)
    }
}

/// The SCALE encoding of a message.
pub open spec fn encoded(m: XCMPMessage<AccountId, Balance>) -> Seq<u8> {
    match m {
        XCMPMessage::TransferToken(account, balance) => seq![TRANSFER_TOKEN_INDEX] + account@
            + le_bytes(balance as nat, 16),
    }
}

/// What decoding `input` may give: the message whose encoding starts `input`, with the
/// number of bytes it takes; `UnknownVariant` when the first byte names no variant; and
/// `InputTooShort` when the input ends before the message does.
pub open spec fn decode_outcome(
    input: Seq<u8>,
    r: Result<(XCMPMessage<AccountId, Balance>, usize), MessageDecodeError>,
) -> bool {
    match r {
        Ok((m, n)) => {
            &&& n == ENCODED_LEN
            &&& input.len() >= ENCODED_LEN
            &&& input[0] == TRANSFER_TOKEN_INDEX
            &&& encoded(m) == input.take(ENCODED_LEN as int)
        },
        Err(MessageDecodeError::InputTooShort) => input.len() == 0 || (input[0]
            == TRANSFER_TOKEN_INDEX && input.len() < ENCODED_LEN),
        Err(MessageDecodeError::UnknownVariant(i)) => input.len() > 0 && input[0]
            != TRANSFER_TOKEN_INDEX && i == input[0],
    }
}

/// `parity_scale_codec::Encode::encode` on a `u128`: its 16 little-endian bytes.
#[verifier::external_body]
fn encode_balance(b: u128) -> (r: Vec<u8>)
    ensures
        r@ == le_bytes(b as nat, 16),
{
    parity_scale_codec::Encode::encode(&b)
}

/// `parity_scale_codec::Encode::encode` on a `[u8; 32]`: its bytes as they are.
#[verifier::external_body]
fn encode_account(a: &[u8; 32]) -> (r: Vec<u8>)
    ensures
        r@ == a@,
{
    parity_scale_codec::Encode::encode(a)
}

/// `parity_scale_codec::Decode::decode` of a `u128` from `input`: succeeds when `input`
/// holds at least 16 bytes, and reads the first 16 as a little-endian number.
#[verifier::external_body]
fn decode_balance(input: &[u8]) -> (r: Result<u128, parity_scale_codec::Error>)
    ensures
        r is Ok <==> input@.len() >= 16,
        r matches Ok(b) ==> b as nat == from_le(input@.take(16)),
{
    <u128 as parity_scale_codec::Decode>::decode(&mut &input[..])
}

/// `parity_scale_codec::Decode::decode` of a `[u8; 32]` from `input`: succeeds when
/// `input` holds at least 32 bytes, and takes the first 32 as they are.
#[verifier::external_body]
fn decode_account(input: &[u8]) -> (r: Result<[u8; 32], parity_scale_codec::Error>)
    ensures
        r is Ok <==> input@.len() >= 32,
        r matches Ok(a) ==> a@ == input@.take(32),
{
    <[u8; 32] as parity_scale_codec::Decode>::decode(&mut &input[..])
}

impl XCMPMessage<AccountId, Balance> {
    /// The SCALE encoding of the message.
    pub fn encode(&self) -> (r: Vec<u8>)
        ensures
            r@ == encoded(*self),
            r@.len() == ENCODED_LEN,
            r@[0] == TRANSFER_TOKEN_INDEX,
            match *self {
                XCMPMessage::TransferToken(account, balance) => {
                    &&& r@.subrange(1, 33) == account@
                    &&& from_le(r@.subrange(33, 49)) == balance as nat
                },
            },
    {
        match self {
            XCMPMessage::TransferToken(account, balance) => {
                proof {
                    lemma_encoded_fields(*account, *balance);
                }
                let mut out: Vec<u8> = Vec::new();
                out.push(TRANSFER_TOKEN_INDEX);
                let mut account_bytes = encode_account(account);
                out.append(&mut account_bytes);
                let mut balance_bytes = encode_balance(*balance);
                out.append(&mut balance_bytes);
                out
            },
        }
    }

    /// Decodes a message from the start of `input`, giving the message and the number of
    /// bytes that it took.
    pub fn decode(input: &[u8]) -> (r: Result<(Self, usize), MessageDecodeError>)
        ensures
            decode_outcome(input@, r),
            r is Ok <==> input@.len() >= ENCODED_LEN && input@[0] == TRANSFER_TOKEN_INDEX,
            r matches Ok((XCMPMessage::TransferToken(account, balance), n)) ==> {
                &&& n == ENCODED_LEN
                &&& account@ == input@.subrange(1, 33)
                &&& balance as nat == from_le(input@.subrange(33, 49))
            },
    {
        if input.len() == 0 {
            return Err(MessageDecodeError::InputTooShort);
        }
        let index = input[0];
        if index != TRANSFER_TOKEN_INDEX {
            return Err(MessageDecodeError::UnknownVariant(index));
        }
        let account = match decode_account(vstd::slice::slice_subrange(input, 1, input.len())) {
            Ok(a) => a,
            Err(_) => return Err(MessageDecodeError::InputTooShort),
        };
        let balance = match decode_balance(vstd::slice::slice_subrange(input, 33, input.len())) {
            Ok(b) => b,
            Err(_) => return Err(MessageDecodeError::InputTooShort),
        };
        let m = XCMPMessage::TransferToken(account, balance);
        proof {
            lemma_le_bytes_from_le(input@.subrange(33, input@.len() as int).take(16), 16);
            assert(input@.subrange(33, input@.len() as int).take(16) =~= input@.subrange(33, 49));
            assert(input@.subrange(1, input@.len() as int).take(32) =~= input@.subrange(1, 33));
            assert(encoded(m) =~= input@.take(49));
        }
        Ok((m, ENCODED_LEN))
    }
}

/// `le_bytes` gives `len` bytes.
pub proof fn lemma_le_bytes_len(n: nat, len: nat)
    ensures
        le_bytes(n, len).len() == len,
    decreases len,
{
    if len > 0 {
        lemma_le_bytes_len(n / 256, (len - 1) as nat);
    }
}

/// Reading back the `len` little-endian bytes of a number below `256^len` gives the
/// number.
pub proof fn lemma_from_le_bytes(n: nat, len: nat)
    requires
        n < pow256(len),
    ensures
        from_le(le_bytes(n, len)) == n,
    decreases len,
{
    if len > 0 {
        let s = le_bytes(n, len);
        lemma_le_bytes_len(n / 256, (len - 1) as nat);
        assert(s.drop_first() =~= le_bytes(n / 256, (len - 1) as nat));
        let p = pow256((len - 1) as nat);
        assert(n / 256 < p) by (nonlinear_arith)
            requires
                n < 256 * p,
        ;
        lemma_from_le_bytes(n / 256, (len - 1) as nat);
        assert(n == n % 256 + 256 * (n / 256)) by (nonlinear_arith);
    }
}

/// Bytes read as a little-endian number and written back as many bytes are the same bytes.
pub proof fn lemma_le_bytes_from_le(s: Seq<u8>, len: nat)
    requires
        s.len() == len,
    ensures
        le_bytes(from_le(s), len) == s,
        from_le(s) < pow256(len),
    decreases len,
{
    if len > 0 {
        let rest = s.drop_first();
        lemma_le_bytes_from_le(rest, (len - 1) as nat);
        let r = from_le(rest);
        let b = s[0] as nat;
        let n = b + 256 * r;
        assert(n % 256 == b && n / 256 == r) by (nonlinear_arith)
            requires
                n == b + 256 * r,
                b < 256,
        ;
        let p = pow256((len - 1) as nat);
        assert(n < 256 * p) by (nonlinear_arith)
            requires
                n == b + 256 * r,
                b < 256,
                r < p,
        ;
        assert(le_bytes(n, len) =~= s);
    }
}

/// `256^16` is one more than the largest `u128`.
pub proof fn lemma_pow256_16()
    ensures
        pow256(16) == u128::MAX as nat + 1,
{
    reveal_with_fuel(pow256, 17);
}

/// The encoding of a transfer is the variant byte, the account's 32 bytes as they are,
/// and 16 bytes that read back, little-endian, as the balance.
pub proof fn lemma_encoded_fields(account: AccountId, balance: Balance)
    ensures
        encoded(XCMPMessage::TransferToken(account, balance)).len() == ENCODED_LEN,
        encoded(XCMPMessage::TransferToken(account, balance))[0] == TRANSFER_TOKEN_INDEX,
        encoded(XCMPMessage::TransferToken(account, balance)).subrange(1, 33) == account@,
        from_le(encoded(XCMPMessage::TransferToken(account, balance)).subrange(33, 49))
            == balance as nat,
{
    let e = encoded(XCMPMessage::TransferToken(account, balance));
    lemma_le_bytes_len(balance as nat, 16);
    assert(e.subrange(1, 33) =~= account@);
    assert(e.subrange(33, 49) =~= le_bytes(balance as nat, 16));
    lemma_pow256_16();
    lemma_from_le_bytes(balance as nat, 16);
}

/// Decoding succeeds exactly on inputs of at least `ENCODED_LEN` bytes that start with the
/// variant byte, and then gives the transfer to the account made of bytes 1..33 as they
/// are, of the balance that bytes 33..49 stand for read little-endian, taking 49 bytes.
pub proof fn lemma_decode_fields(
    input: Seq<u8>,
    r: Result<(XCMPMessage<AccountId, Balance>, usize), MessageDecodeError>,
)
    requires
        decode_outcome(input, r),
    ensures
        r is Ok <==> input.len() >= ENCODED_LEN && input[0] == TRANSFER_TOKEN_INDEX,
        r matches Ok((XCMPMessage::TransferToken(account, balance), n)) ==> {
            &&& n == ENCODED_LEN
            &&& account@ == input.subrange(1, 33)
            &&& balance as nat == from_le(input.subrange(33, 49))
        },
{
    match r {
        Ok((XCMPMessage::TransferToken(account, balance), n)) => {
            lemma_encoded_fields(account, balance);
            let e = encoded(XCMPMessage::TransferToken(account, balance));
            assert(e.subrange(1, 33) =~= input.subrange(1, 33));
            assert(e.subrange(33, 49) =~= input.subrange(33, 49));
        },
        Err(_) => {},
    }
}

/// An encoded message is `ENCODED_LEN` bytes long.
pub proof fn lemma_encoded_len(m: XCMPMessage<AccountId, Balance>)
    ensures
        encoded(m).len() == ENCODED_LEN,
{
    match m {
        XCMPMessage::TransferToken(account, balance) => {
            lemma_le_bytes_len(balance as nat, 16);
        },
    }
}

/// Different messages have different encodings.
pub proof fn lemma_encoding_injective(
    m1: XCMPMessage<AccountId, Balance>,
    m2: XCMPMessage<AccountId, Balance>,
)
    requires
        encoded(m1) == encoded(m2),
    ensures
        m1 == m2,
{
    match (m1, m2) {
        (XCMPMessage::TransferToken(a1, b1), XCMPMessage::TransferToken(a2, b2)) => {
            lemma_le_bytes_len(b1 as nat, 16);
            lemma_le_bytes_len(b2 as nat, 16);
            let e1 = encoded(m1);
            let e2 = encoded(m2);
            assert(e1.subrange(1, 33) =~= a1@);
            assert(e2.subrange(1, 33) =~= a2@);
            assert(a1 =~= a2);
            assert(e1.subrange(33, 49) =~= le_bytes(b1 as nat, 16));
            assert(e2.subrange(33, 49) =~= le_bytes(b2 as nat, 16));
            lemma_pow256_16();
            lemma_from_le_bytes(b1 as nat, 16);
            lemma_from_le_bytes(b2 as nat, 16);
        },
    }
}

/// Decoding the encoding of a message, whatever bytes follow it, gives back the message
/// and the length of its encoding.
pub proof fn lemma_decode_encode(
    m: XCMPMessage<AccountId, Balance>,
    rest: Seq<u8>,
    r: Result<(XCMPMessage<AccountId, Balance>, usize), MessageDecodeError>,
)
    requires
        decode_outcome(encoded(m) + rest, r),
    ensures
        r == Ok::<_, MessageDecodeError>((m, ENCODED_LEN)),
{
    lemma_encoded_len(m);
    let input = encoded(m) + rest;
    assert(input.take(ENCODED_LEN as int) =~= encoded(m));
    match r {
        Ok((m2, n)) => {
            lemma_encoding_injective(m, m2);
        },
        Err(_) => {},
    }
}

/// Whatever decodes from `input` encodes back to the bytes it was read from.
pub proof fn lemma_encode_decode(
    input: Seq<u8>,
    m: XCMPMessage<AccountId, Balance>,
    n: usize,
)
    requires
        decode_outcome(input, Ok((m, n))),
    ensures
        encoded(m) == input.take(n as int),
{
}

} // verus!
