//! The signed payload of a sealed Trace Context and its proof.

use vstd::prelude::*;

verus! {

/// A length as eight bytes, the most significant first.
#[verifier::opaque]
pub open spec fn be_bytes(length: nat) -> Seq<u8> {
    seq![
        (length / 0x100000000000000 % 256) as u8,
        (length / 0x1000000000000 % 256) as u8,
        (length / 0x10000000000 % 256) as u8,
        (length / 0x100000000 % 256) as u8,
        (length / 0x1000000 % 256) as u8,
        (length / 0x10000 % 256) as u8,
        (length / 0x100 % 256) as u8,
        (length % 256) as u8,
    ]
}

/// A byte string behind its length.
pub open spec fn length_prefixed(value: Seq<u8>) -> Seq<u8> {
    be_bytes(value.len()) + value
}

/// Byte strings one after the other, each behind its length.
pub open spec fn frames(chunks: Seq<Seq<u8>>) -> Seq<u8>
    decreases chunks.len(),
{
    if chunks.len() == 0 {
        Seq::empty()
    } else {
        frames(chunks.drop_last()) + length_prefixed(chunks.last())
    }
}

/// What a signature covers, in order: the issuer, each audience entry, the value.
pub open spec fn signed_chunks(
    issuer: Seq<char>,
    audience: Seq<Seq<char>>,
    value: Seq<u8>,
) -> Seq<Seq<u8>> {
    seq![vstd::utf8::encode_utf8(issuer)] + audience.map_values(
        |entry: Seq<char>| vstd::utf8::encode_utf8(entry),
    ) + seq![value]
}

/// The signed payload.
pub open spec fn payload(issuer: Seq<char>, audience: Seq<Seq<char>>, value: Seq<u8>) -> Seq<u8> {
    frames(signed_chunks(issuer, audience, value))
}

/// The texts of a list of strings.
pub open spec fn texts(strings: Seq<String>) -> Seq<Seq<char>> {
    strings.map_values(|string: String| string@)
}

/// The HMAC-SHA256 tag of a message under a key.
pub uninterp spec fn hmac_sha256_tag(key: Seq<u8>, message: Seq<u8>) -> Seq<u8>;

/// `Hmac::<Sha256>`: `new_from_slice`, `update` with the whole message, `finalize`. The tag
/// has 32 bytes and depends on the key and the message alone. `new_from_slice` accepts a key
/// of any length: it pads a short key and hashes a long one.
#[verifier::external_body]
fn hmac_sha256(key: &[u8], message: &[u8]) -> (tag: Vec<u8>)
    ensures
        tag@ == hmac_sha256_tag(key@, message@),
        tag@.len() == 32,
{
    let mut mac = <hmac::Hmac<sha2::Sha256> as hmac::Mac>::new_from_slice(key).expect(
        "HMAC-SHA256 accepts every key",
    );
    hmac::Mac::update(&mut mac, message);
    hmac::Mac::finalize(mac).into_bytes().to_vec()
}

/// The character of the URL-safe Base64 alphabet that stands for six bits.
pub open spec fn base64_char(sextet: nat) -> char
    recommends
        sextet < 64,
{
    if sextet < 26 {
        (65 + sextet) as char
    } else if sextet < 52 {
        (97 + sextet - 26) as char
    } else if sextet < 62 {
        (48 + sextet - 52) as char
    } else if sextet == 62 {
        '-'
    } else {
        '_'
    }
}

/// The six bits of a byte string that start at bit `6 * index`, with zeroes behind its end.
pub open spec fn base64_sextet(bytes: Seq<u8>, index: int) -> nat {
    let byte = 6 * index / 8;
    let offset = 6 * index % 8;
    let next = if byte + 1 < bytes.len() {
        bytes[byte + 1] as nat
    } else {
        0
    };
    let window = 256 * bytes[byte] as nat + next;
    if offset == 0 {
        window / 1024 % 64
    } else if offset == 2 {
        window / 256 % 64
    } else if offset == 4 {
        window / 64 % 64
    } else {
        window / 16 % 64
    }
}

/// URL-safe Base64 without padding: one character for every six bits begun.
pub open spec fn base64_text(bytes: Seq<u8>) -> Seq<char> {
    Seq::new(
        ((4 * bytes.len() + 2) / 3) as nat,
        |i: int| base64_char(base64_sextet(bytes, i)),
    )
}

/// `URL_SAFE_NO_PAD.encode`: the URL-safe Base64 text of a byte string, without padding. The
/// length of the text has to fit the address space.
#[verifier::external_body]
fn base64_url(bytes: &[u8]) -> (encoded: String)
    requires
        bytes@.len() <= isize::MAX / 2,
    ensures
        encoded@ == base64_text(bytes@),
{
    base64::Engine::encode(&base64::engine::general_purpose::URL_SAFE_NO_PAD, bytes)
}

/// Appends a length as eight bytes, the most significant first.
fn append_length(buffer: &mut Vec<u8>, length: usize)
    ensures
        final(buffer)@ == old(buffer)@ + be_bytes(length as nat),
{
    let length = length as u64;
    proof {
        reveal(be_bytes);
    }
    buffer.push((length / 0x100000000000000 % 256) as u8);
    buffer.push((length / 0x1000000000000 % 256) as u8);
    buffer.push((length / 0x10000000000 % 256) as u8);
    buffer.push((length / 0x100000000 % 256) as u8);
    buffer.push((length / 0x1000000 % 256) as u8);
    buffer.push((length / 0x10000 % 256) as u8);
    buffer.push((length / 0x100 % 256) as u8);
    buffer.push((length % 256) as u8);
}

/// Appends a byte string behind its length.
pub fn append_length_prefixed(buffer: &mut Vec<u8>, value: &[u8])
    ensures
        final(buffer)@ == old(buffer)@ + length_prefixed(value@),
{
    append_length(buffer, value.len());
    buffer.extend_from_slice(value);
    assert(buffer@ =~= old(buffer)@ + length_prefixed(value@));
}

/// The payload that a signature covers: the issuer, each audience entry and the value, each
/// behind its length.
pub fn signing_payload(issuer: &str, audience: &[String], value: &[u8]) -> (signed: Vec<u8>)
    ensures
        signed@ == payload(issuer@, texts(audience@), value@),
{
    let mut signed: Vec<u8> = Vec::new();
    let ghost chunks = signed_chunks(issuer@, texts(audience@), value@);
    append_length_prefixed(&mut signed, issuer.as_bytes());
    proof {
        assert(chunks.take(1).drop_last() =~= Seq::empty());
        assert(chunks.take(1).last() == vstd::utf8::encode_utf8(issuer@));
        assert(frames(chunks.take(1).drop_last()) =~= Seq::empty());
        assert(signed@ =~= frames(chunks.take(1)));
    }
    let mut index: usize = 0;
    while index < audience.len()
        invariant
            index <= audience@.len(),
            chunks == signed_chunks(issuer@, texts(audience@), value@),
            signed@ == frames(chunks.take(index + 1)),
        decreases audience@.len() - index,
    {
        append_length_prefixed(&mut signed, audience[index].as_str().as_bytes());
        index += 1;
        proof {
            assert(chunks.take(index + 1).drop_last() =~= chunks.take(index as int));
            assert(chunks[index as int] == vstd::utf8::encode_utf8(audience@[index - 1]@));
        }
    }
    append_length_prefixed(&mut signed, value);
    assert(chunks.drop_last() =~= chunks.take(index + 1));
    signed
}

/// The proof of a signature: the Base64 text of an authentication tag.
pub open spec fn proof_text(
    issuer: Seq<char>,
    signing_key: Seq<u8>,
    audience: Seq<Seq<char>>,
    value: Seq<u8>,
) -> Seq<char> {
    base64_text(hmac_sha256_tag(signing_key, payload(issuer, audience, value)))
}

/// Writes an authentication tag as the text of a proof.
pub fn encode_tag(tag: &[u8]) -> (encoded: String)
    requires
        tag@.len() == 32,
    ensures
        encoded@ == base64_text(tag@),
        encoded@.len() == 43,
{
    base64_url(tag)
}

/// Signs an issuer, an audience and a value with a key.
pub fn sign(issuer: &str, signing_key: &[u8], audience: &[String], value: &[u8]) -> (signature:
    String)
    ensures
        signature@ == proof_text(issuer@, signing_key@, texts(audience@), value@),
        signature@.len() == 43,
{
    let signed = signing_payload(issuer, audience, value);
    let tag = hmac_sha256(signing_key, signed.as_slice());
    encode_tag(tag.as_slice())
}

/// Compares two byte strings. Where the lengths agree, every byte is looked at, whatever the
/// bytes hold.
pub fn constant_time_eq(left: &[u8], right: &[u8]) -> (same: bool)
    ensures
        same == (left@ == right@),
{
    if left.len() != right.len() {
        return false;
    }
    let mut difference: u8 = 0;
    let mut index: usize = 0;
    while index < left.len()
        invariant
            index <= left@.len(),
            left@.len() == right@.len(),
            difference == 0 <==> (forall|i: int| 0 <= i < index ==> left@[i] == right@[i]),
        decreases left@.len() - index,
    {
        let a = left[index];
        let b = right[index];
        assert((difference | (a ^ b)) == 0 <==> (difference == 0 && a == b)) by (bit_vector);
        difference = difference | (a ^ b);
        index += 1;
        proof {
            if difference == 0 {
                assert(forall|i: int| 0 <= i < index ==> left@[i] == right@[i]);
            } else {
                assert(exists|i: int| 0 <= i < index && left@[i] != right@[i]) by {
                    if a != b {
                        assert(left@[index - 1] != right@[index - 1]);
                    }
                }
            }
        }
    }
    proof {
        if difference == 0 {
            assert(left@ =~= right@);
        }
    }
    difference == 0
}

/// Frames of two lists are the frames of the one followed by those of the other.
proof fn lemma_frames_append(left: Seq<Seq<u8>>, right: Seq<Seq<u8>>)
    ensures
        frames(left + right) == frames(left) + frames(right),
    decreases right.len(),
{
    if right.len() == 0 {
        assert(left + right =~= left);
        assert(frames(left) + frames(right) =~= frames(left));
    } else {
        lemma_frames_append(left, right.drop_last());
        assert((left + right).drop_last() =~= left + right.drop_last());
        assert(frames(left + right) =~= frames(left) + frames(right));
    }
}

/// Frames start with the first byte string behind its length.
proof fn lemma_frames_first(chunks: Seq<Seq<u8>>)
    requires
        chunks.len() > 0,
    ensures
        frames(chunks) == length_prefixed(chunks[0]) + frames(chunks.drop_first()),
{
    let first = seq![chunks[0]];
    lemma_frames_append(first, chunks.drop_first());
    assert(first + chunks.drop_first() =~= chunks);
    assert(first.drop_last() =~= Seq::empty());
    assert(frames(first.drop_last()) =~= Seq::empty());
    assert(frames(first) =~= length_prefixed(chunks[0]));
}

/// The quotients behind the eight bytes of a length.
proof fn lemma_be_bytes_quotients(length: nat)
    requires
        length < 0x1_0000_0000_0000_0000,
    ensures
        be_bytes(length).len() == 8,
        length / 0x100000000000000 == be_bytes(length)[0],
        length / 0x1000000000000 == 256 * (length / 0x100000000000000) + be_bytes(length)[1],
        length / 0x10000000000 == 256 * (length / 0x1000000000000) + be_bytes(length)[2],
        length / 0x100000000 == 256 * (length / 0x10000000000) + be_bytes(length)[3],
        length / 0x1000000 == 256 * (length / 0x100000000) + be_bytes(length)[4],
        length / 0x10000 == 256 * (length / 0x1000000) + be_bytes(length)[5],
        length / 0x100 == 256 * (length / 0x10000) + be_bytes(length)[6],
        length == 256 * (length / 0x100) + be_bytes(length)[7],
{
    reveal(be_bytes);
    let n = length as int;
    vstd::arithmetic::div_mod::lemma_div_denominator(n, 0x1000000000000, 0x100);
    vstd::arithmetic::div_mod::lemma_div_denominator(n, 0x10000000000, 0x100);
    vstd::arithmetic::div_mod::lemma_div_denominator(n, 0x100000000, 0x100);
    vstd::arithmetic::div_mod::lemma_div_denominator(n, 0x1000000, 0x100);
    vstd::arithmetic::div_mod::lemma_div_denominator(n, 0x10000, 0x100);
    vstd::arithmetic::div_mod::lemma_div_denominator(n, 0x100, 0x100);
}

/// Eight bytes tell lengths apart.
proof fn lemma_be_bytes_injective(left: nat, right: nat)
    requires
        left < 0x1_0000_0000_0000_0000,
        right < 0x1_0000_0000_0000_0000,
        be_bytes(left) == be_bytes(right),
    ensures
        left == right,
{
    lemma_be_bytes_quotients(left);
    lemma_be_bytes_quotients(right);
}

/// Different lists of byte strings have different frames.
proof fn lemma_frames_injective(left: Seq<Seq<u8>>, right: Seq<Seq<u8>>)
    requires
        forall|i: int| 0 <= i < left.len() ==> (#[trigger] left[i]).len() < 0x1_0000_0000_0000_0000,
        forall|i: int|
            0 <= i < right.len() ==> (#[trigger] right[i]).len() < 0x1_0000_0000_0000_0000,
        frames(left) == frames(right),
    ensures
        left == right,
    decreases left.len(),
{
    if left.len() > 0 {
        lemma_frames_first(left);
        lemma_be_bytes_quotients(left[0].len());
        assert(frames(left).len() >= length_prefixed(left[0]).len() >= 8);
    }
    if right.len() > 0 {
        lemma_frames_first(right);
        lemma_be_bytes_quotients(right[0].len());
        assert(frames(right).len() >= length_prefixed(right[0]).len() >= 8);
    }
    if left.len() == 0 || right.len() == 0 {
        assert(left =~= right);
    } else {
        let whole = frames(left);
        let a = left[0];
        let b = right[0];
        assert(be_bytes(a.len()) =~= whole.take(8));
        assert(be_bytes(b.len()) =~= whole.take(8));
        lemma_be_bytes_injective(a.len(), b.len());
        assert(a =~= whole.subrange(8, 8 + a.len() as int));
        assert(b =~= whole.subrange(8, 8 + b.len() as int));
        let rest_a = frames(left.drop_first());
        let rest_b = frames(right.drop_first());
        assert(rest_a =~= whole.skip(8 + a.len() as int));
        assert(rest_b =~= whole.skip(8 + b.len() as int));
        assert forall|i: int| 0 <= i < left.drop_first().len() implies (
        #[trigger] left.drop_first()[i]).len() < 0x1_0000_0000_0000_0000 by {
            assert(left.drop_first()[i] == left[i + 1]);
        }
        assert forall|i: int| 0 <= i < right.drop_first().len() implies (
        #[trigger] right.drop_first()[i]).len() < 0x1_0000_0000_0000_0000 by {
            assert(right.drop_first()[i] == right[i + 1]);
        }
        lemma_frames_injective(left.drop_first(), right.drop_first());
        assert(left =~= seq![a] + left.drop_first());
        assert(right =~= seq![b] + right.drop_first());
    }
}

/// The signed payload is unambiguous: payloads agree only where issuer, audience and value
/// all agree. Lengths are those that eight bytes can hold.
pub proof fn law_payload_is_unambiguous(
    issuer: Seq<char>,
    audience: Seq<Seq<char>>,
    value: Seq<u8>,
    other_issuer: Seq<char>,
    other_audience: Seq<Seq<char>>,
    other_value: Seq<u8>,
)
    requires
        payload(issuer, audience, value) == payload(other_issuer, other_audience, other_value),
        forall|i: int|
            0 <= i < signed_chunks(issuer, audience, value).len() ==> (
            #[trigger] signed_chunks(issuer, audience, value)[i]).len() < 0x1_0000_0000_0000_0000,
        forall|i: int|
            0 <= i < signed_chunks(other_issuer, other_audience, other_value).len() ==> (
            #[trigger] signed_chunks(other_issuer, other_audience, other_value)[i]).len()
                < 0x1_0000_0000_0000_0000,
    ensures
        issuer == other_issuer,
        audience == other_audience,
        value == other_value,
{
    let left = signed_chunks(issuer, audience, value);
    let right = signed_chunks(other_issuer, other_audience, other_value);
    lemma_frames_injective(left, right);
    assert(left[0] == right[0]);
    crate::text::lemma_encoding_is_injective(issuer, other_issuer);
    assert(left.last() == right.last());
    assert(audience.len() == other_audience.len());
    assert forall|i: int| 0 <= i < audience.len() implies audience[i] == other_audience[i] by {
        assert(left[i + 1] == right[i + 1]);
        assert(left[i + 1] == vstd::utf8::encode_utf8(audience[i]));
        assert(right[i + 1] == vstd::utf8::encode_utf8(other_audience[i]));
        crate::text::lemma_encoding_is_injective(audience[i], other_audience[i]);
    }
    assert(audience =~= other_audience);
}

/// The prefix of a length is that length in eight bytes, the most significant first.
pub proof fn law_length_prefix_reads_back(length: nat)
    requires
        length < 0x1_0000_0000_0000_0000,
    ensures
        be_bytes(length).len() == 8,
        length == 256 * (256 * (256 * (256 * (256 * (256 * (256 * be_bytes(length)[0] + be_bytes(
            length,
        )[1]) + be_bytes(length)[2]) + be_bytes(length)[3]) + be_bytes(length)[4]) + be_bytes(
            length,
        )[5]) + be_bytes(length)[6]) + be_bytes(length)[7],
{
    lemma_be_bytes_quotients(length);
}

/// A length prefix has eight bytes.
proof fn lemma_be_bytes_len(length: nat)
    ensures
        be_bytes(length).len() == 8,
{
    reveal(be_bytes);
}

/// The layout of the signed payload. With an empty audience it is the issuer and the value,
/// each behind its length. One entry more at the end of the audience stands, behind its
/// length, between what was there before and the length of the value.
pub proof fn law_payload_layout(
    issuer: Seq<char>,
    audience: Seq<Seq<char>>,
    value: Seq<u8>,
    entry: Seq<char>,
    other_value: Seq<u8>,
)
    ensures
        payload(issuer, Seq::empty(), value) == be_bytes(vstd::utf8::encode_utf8(issuer).len())
            + vstd::utf8::encode_utf8(issuer) + be_bytes(value.len()) + value,
        ({
            let whole = payload(issuer, audience, value);
            let extended = payload(issuer, audience.push(entry), other_value);
            let head = whole.take(whole.len() - 8 - value.len());
            let name = vstd::utf8::encode_utf8(entry);
            &&& whole.len() >= 8 + value.len()
            &&& whole == head + be_bytes(value.len()) + value
            &&& extended == head + be_bytes(name.len()) + name + be_bytes(other_value.len())
                + other_value
        }),
{
    lemma_be_bytes_len(value.len());
    let alone = signed_chunks(issuer, Seq::empty(), value);
    assert(alone.drop_last() =~= seq![vstd::utf8::encode_utf8(issuer)]);
    assert(alone.drop_last().drop_last() =~= Seq::empty());
    assert(frames(alone.drop_last().drop_last()) =~= Seq::empty());
    assert(frames(alone.drop_last()) == frames(alone.drop_last().drop_last()) + length_prefixed(
        alone.drop_last().last(),
    ));
    assert(alone.last() == value);
    assert(payload(issuer, Seq::empty(), value) =~= be_bytes(
        vstd::utf8::encode_utf8(issuer).len(),
    ) + vstd::utf8::encode_utf8(issuer) + be_bytes(value.len()) + value);
    let name = vstd::utf8::encode_utf8(entry);
    let chunks = signed_chunks(issuer, audience, value);
    let longer = signed_chunks(issuer, audience.push(entry), other_value);
    let whole = payload(issuer, audience, value);
    let head = whole.take(whole.len() - 8 - value.len());
    assert(head =~= frames(chunks.drop_last()));
    assert(longer.drop_last().drop_last() =~= chunks.drop_last());
    assert(longer.drop_last().last() == name);
    assert(longer.last() == other_value);
    assert(frames(longer.drop_last()) == head + length_prefixed(name));
    assert(whole =~= head + be_bytes(value.len()) + value);
    assert(payload(issuer, audience.push(entry), other_value) =~= head + be_bytes(name.len())
        + name + be_bytes(other_value.len()) + other_value);
}

} // verus!
