use vstd::prelude::*;
use vstd::arithmetic::power::pow;
use sha3::Digest;
use rand::rngs::OsRng;

verus! {

// ---------------------------------------------------------------------------
// Base32 (RFC 4648, lowercase alphabet, no padding)
// ---------------------------------------------------------------------------

/// The symbol of `v` in the alphabet `abcdefghijklmnopqrstuvwxyz234567`.
pub open spec fn base32_symbol(v: int) -> char {
    if v < 26 {
        (97 + v) as char
    } else {
        (50 + (v - 26)) as char
    }
}

/// Whether `c` belongs to the lowercase base32 alphabet.
pub open spec fn is_base32_char(c: char) -> bool {
    ('a' <= c && c <= 'z') || ('2' <= c && c <= '7')
}

/// The 40-bit big-endian value of a group of five bytes.
pub open spec fn group_value(g: Seq<u8>) -> int {
    g[0] * 4294967296 + g[1] * 16777216 + g[2] * 65536 + g[3] * 256 + g[4]
}

/// The eight symbols of a five-byte group: symbol `k` encodes bits
/// `5k .. 5k + 5` of the group's 40-bit value, most significant first.
pub open spec fn group_symbols(g: Seq<u8>) -> Seq<char> {
    Seq::new(8, |k: int| base32_symbol((group_value(g) / pow(32, (7 - k) as nat)) % 32))
}

/// Base32 encoding of `bytes`, group of five bytes by group of five bytes.
/// Bytes after the last whole group are not encoded.
pub open spec fn base32_lower(bytes: Seq<u8>) -> Seq<char>
    decreases bytes.len(),
{
    if bytes.len() < 5 {
        Seq::empty()
    } else {
        group_symbols(bytes.take(5)) + base32_lower(bytes.skip(5))
    }
}

/// Appends `c` with `String::push`.
#[verifier::external_body]
fn push_char(s: &mut String, c: char)
    ensures
        final(s)@ == old(s)@.push(c),
{
    s.push(c);
}

fn base32_char(v: u8) -> (c: char)
    requires
        v < 32,
    ensures
        c == base32_symbol(v as int),
        is_base32_char(c),
{
    if v < 26 {
        let b: u8 = 97 + v;
        b as char
    } else {
        let b: u8 = 50 + (v - 26);
        b as char
    }
}

proof fn lemma_pow32()
    ensures
        pow(32, 0) == 1,
        pow(32, 1) == 32,
        pow(32, 2) == 1024,
        pow(32, 3) == 32768,
        pow(32, 4) == 1048576,
        pow(32, 5) == 33554432,
        pow(32, 6) == 1073741824,
        pow(32, 7) == 34359738368,
{
    reveal_with_fuel(pow, 8);
}

/// The shift that the encoder uses for symbol `k` of a group extracts the
/// same five bits as the division in `group_symbols`.
proof fn lemma_extract(v: u64, k: u64)
    requires
        v < 0x100_0000_0000,
        k < 8,
    ensures
        ((v >> (35 - 5 * k) as u64) & 31) as int == (v as int / pow(32, (7 - k) as nat)) % 32,
{
    lemma_pow32();
    if k == 0 {
        assert((v >> 35u64) & 31 == (v / 34359738368) % 32) by (bit_vector);
    } else if k == 1 {
        assert((v >> 30u64) & 31 == (v / 1073741824) % 32) by (bit_vector);
    } else if k == 2 {
        assert((v >> 25u64) & 31 == (v / 33554432) % 32) by (bit_vector);
    } else if k == 3 {
        assert((v >> 20u64) & 31 == (v / 1048576) % 32) by (bit_vector);
    } else if k == 4 {
        assert((v >> 15u64) & 31 == (v / 32768) % 32) by (bit_vector);
    } else if k == 5 {
        assert((v >> 10u64) & 31 == (v / 1024) % 32) by (bit_vector);
    } else if k == 6 {
        assert((v >> 5u64) & 31 == (v / 32) % 32) by (bit_vector);
    } else {
        assert((v >> 0u64) & 31 == (v / 1) % 32) by (bit_vector);
    }
}

proof fn lemma_group_pack(b0: u8, b1: u8, b2: u8, b3: u8, b4: u8)
    ensures
        ((b0 as u64) << 32u64 | (b1 as u64) << 24u64 | (b2 as u64) << 16u64 | (b3 as u64) << 8u64
            | (b4 as u64)) as int == b0 * 4294967296 + b1 * 16777216 + b2 * 65536 + b3 * 256 + b4,
        b0 * 4294967296 + b1 * 16777216 + b2 * 65536 + b3 * 256 + b4 < 0x100_0000_0000,
{
    assert(((b0 as u64) << 32u64 | (b1 as u64) << 24u64 | (b2 as u64) << 16u64 | (b3 as u64) << 8u64
        | (b4 as u64)) == (b0 as u64) * 4294967296 + (b1 as u64) * 16777216 + (b2 as u64) * 65536
        + (b3 as u64) * 256 + (b4 as u64)) by (bit_vector);
}

/// Encoding a prefix of whole groups, then one more group, appends that
/// group's symbols.
proof fn lemma_base32_push_group(a: Seq<u8>, g: Seq<u8>)
    requires
        a.len() % 5 == 0,
        g.len() == 5,
    ensures
        base32_lower(a + g) == base32_lower(a) + group_symbols(g),
    decreases a.len(),
{
    if a.len() < 5 {
        assert(a.len() == 0);
        assert(a + g == g);
        assert(g.take(5) == g);
        assert(g.skip(5).len() == 0);
        assert(base32_lower(g.skip(5)) == Seq::<char>::empty());
        assert(base32_lower(a) == Seq::<char>::empty());
    } else {
        let rest = a.skip(5);
        assert((a + g).take(5) == a.take(5));
        assert((a + g).skip(5) == rest + g);
        lemma_base32_push_group(rest, g);
    }
}

/// RFC 4648 base32 encoding (lowercase alphabet, no padding) of 35 bytes:
/// 280 bits, 56 symbols.
pub fn data_encoding_hex_lowercase(input: [u8; 35]) -> (out: String)
    ensures
        out@ == base32_lower(input@),
        out@.len() == 56,
{
    let mut out = String::new();
    let mut g: usize = 0;
    while g < 7
        invariant
            g <= 7,
            input@.len() == 35,
            out@ == base32_lower(input@.take(5 * g as int)),
            out@.len() == 8 * g,
        decreases 7 - g,
    {
        let base = 5 * g;
        let b0 = input[base];
        let b1 = input[base + 1];
        let b2 = input[base + 2];
        let b3 = input[base + 3];
        let b4 = input[base + 4];
        let v: u64 = (b0 as u64) << 32u64 | (b1 as u64) << 24u64 | (b2 as u64) << 16u64
            | (b3 as u64) << 8u64 | (b4 as u64);
        let ghost grp = input@.subrange(base as int, base + 5);
        proof {
            lemma_group_pack(b0, b1, b2, b3, b4);
            assert(v as int == group_value(grp));
        }
        let ghost before = out@;
        let mut k: u64 = 0;
        while k < 8
            invariant
                k <= 8,
                v < 0x100_0000_0000,
                v as int == group_value(grp),
                out@ == before + group_symbols(grp).take(k as int),
            decreases 8 - k,
        {
            let idx = ((v >> (35 - 5 * k)) & 31) as u8;
            proof {
                lemma_extract(v, k);
                assert(((v >> (35 - 5 * k) as u64) & 31) < 32) by (bit_vector);
            }
            let c = base32_char(idx);
            push_char(&mut out, c);
            proof {
                assert(group_symbols(grp).take(k + 1) == group_symbols(grp).take(k as int).push(c));
            }
            k = k + 1;
        }
        proof {
            assert(group_symbols(grp).take(8) == group_symbols(grp));
            assert(input@.take(5 * (g + 1)) == input@.take(5 * g as int) + grp);
            lemma_base32_push_group(input@.take(5 * g as int), grp);
        }
        g = g + 1;
    }
    proof {
        assert(input@.take(35) == input@);
    }
    out
}


// ---------------------------------------------------------------------------
// v3 onion addresses
// ---------------------------------------------------------------------------

/// The SHA3-256 digest of `data`, as sha3's `Sha3_256` computes it.
pub uninterp spec fn sha3_256_digest(data: Seq<u8>) -> Seq<u8>;

/// The ed25519 public key (compressed point, 32 bytes) of the 32-byte
/// secret key `secret`, as ed25519-dalek derives it.
pub uninterp spec fn ed25519_public_key(secret: Seq<u8>) -> Seq<u8>;

/// Hashes `data` with `<sha3::Sha3_256 as Digest>::digest`. The result is the
/// named `sha3_256_digest` of the input.
#[verifier::external_body]
fn sha3_256(data: &[u8]) -> (r: [u8; 32])
    ensures
        r@ == sha3_256_digest(data@),
{
    sha3::Sha3_256::digest(data).into()
}

/// Derives the public key of `secret` with
/// `ed25519_dalek::SigningKey::from_bytes(secret).verifying_key().to_bytes()`.
/// The result is the named `ed25519_public_key` of the secret.
#[verifier::external_body]
fn public_key_bytes(secret: &[u8; 32]) -> (r: [u8; 32])
    ensures
        r@ == ed25519_public_key(secret@),
{
    ed25519_dalek::SigningKey::from_bytes(secret).verifying_key().to_bytes()
}

/// Draws a fresh ed25519 secret key with
/// `ed25519_dalek::SigningKey::generate(&mut rand::rngs::OsRng)` and returns
/// its bytes (`to_bytes`). The bytes come from the operating system's random
/// source: nothing is stated of them.
#[verifier::external_body]
fn random_secret_key() -> (r: [u8; 32]) {
    ed25519_dalek::SigningKey::generate(&mut OsRng).to_bytes()
}

/// The version byte of v3 onion addresses.
pub const ONION_VERSION: u8 = 3;

/// The bytes of the text `.onion checksum`, which prefixes the hashed input.
pub open spec fn checksum_label() -> Seq<u8> {
    seq![46u8, 111u8, 110u8, 105u8, 111u8, 110u8, 32u8, 99u8, 104u8, 101u8, 99u8, 107u8, 115u8, 117u8, 109u8]
}

/// The two checksum bytes of a public key: the first two bytes of
/// `SHA3-256(".onion checksum" || pubkey || version)`.
pub open spec fn onion_checksum(pubkey: Seq<u8>) -> Seq<u8> {
    let d = sha3_256_digest(checksum_label() + pubkey + seq![ONION_VERSION]);
    seq![d[0], d[1]]
}

/// The 35 bytes that an address encodes: `pubkey || checksum || version`.
pub open spec fn onion_address_bytes(pubkey: Seq<u8>) -> Seq<u8> {
    pubkey + onion_checksum(pubkey) + seq![ONION_VERSION]
}

/// The v3 `.onion` address of a public key: `base32(pubkey || checksum ||
/// version)` followed by `.onion`.
pub open spec fn onion_address_text(pubkey: Seq<u8>) -> Seq<char> {
    base32_lower(onion_address_bytes(pubkey)) + ".onion"@
}

/// The address of the key pair whose secret key is `secret`.
pub open spec fn onion_address_of_secret(secret: Seq<u8>) -> Seq<char> {
    onion_address_text(ed25519_public_key(secret))
}

/// Derive the `.onion` v3 address from an ed25519 public key.
///
/// The address is `base32(pubkey || checksum || version)` where:
///   - checksum = first 2 bytes of SHA3-256(b".onion checksum" || pubkey || version)
///   - version  = 0x03
pub fn onion_address_from_pubkey(pubkey: &[u8; 32]) -> (r: String)
    ensures
        r@ == onion_address_text(pubkey@),
{
    let mut data: Vec<u8> = vec![46u8, 111u8, 110u8, 105u8, 111u8, 110u8, 32u8, 99u8, 104u8, 101u8, 99u8, 107u8, 115u8, 117u8, 109u8];
    let mut i: usize = 0;
    while i < 32
        invariant
            i <= 32,
            pubkey@.len() == 32,
            data@ == checksum_label() + pubkey@.take(i as int),
        decreases 32 - i,
    {
        data.push(pubkey[i]);
        proof {
            assert(pubkey@.take(i + 1) == pubkey@.take(i as int).push(pubkey@[i as int]));
        }
        i = i + 1;
    }
    data.push(ONION_VERSION);
    proof {
        assert(pubkey@.take(32) == pubkey@);
        assert(data@ == checksum_label() + pubkey@ + seq![ONION_VERSION]);
    }
    let digest = sha3_256(data.as_slice());

    let mut addr_bytes = [0u8; 35];
    let mut j: usize = 0;
    while j < 32
        invariant
            j <= 32,
            pubkey@.len() == 32,
            addr_bytes@.len() == 35,
            addr_bytes@.take(j as int) == pubkey@.take(j as int),
        decreases 32 - j,
    {
        addr_bytes[j] = pubkey[j];
        proof {
            assert(addr_bytes@.take(j + 1) == pubkey@.take(j + 1));
        }
        j = j + 1;
    }
    let ghost head = addr_bytes@;
    addr_bytes[32] = digest[0];
    addr_bytes[33] = digest[1];
    addr_bytes[34] = ONION_VERSION;
    proof {
        assert(head.take(32) == pubkey@);
        assert forall|k: int| 0 <= k < 32 implies addr_bytes@[k] == pubkey@[k] by {
            assert(head.take(32)[k] == head[k]);
        }
        assert(addr_bytes@ =~= onion_address_bytes(pubkey@));
    }
    let mut out = data_encoding_hex_lowercase(addr_bytes);
    out.append(".onion");
    out
}

/// The address of the key pair whose secret key is `secret`.
pub fn onion_address_for_secret(secret: &[u8; 32]) -> (r: String)
    ensures
        r@ == onion_address_of_secret(secret@),
        ed25519_public_key(secret@).len() == 32,
{
    let pubkey = public_key_bytes(secret);
    onion_address_from_pubkey(&pubkey)
}

/// Draws a fresh ed25519 secret key and returns it with its address.
pub fn generate_onion_identity() -> (r: ([u8; 32], String))
    ensures
        r.1@ == onion_address_of_secret(r.0@),
        ed25519_public_key(r.0@).len() == 32,
{
    let secret = random_secret_key();
    let address = onion_address_for_secret(&secret);
    (secret, address)
}


// ---------------------------------------------------------------------------
// What holds of every address
// ---------------------------------------------------------------------------

proof fn lemma_symbol_valid(v: int)
    requires
        0 <= v < 32,
    ensures
        is_base32_char(base32_symbol(v)),
        base32_symbol(v) as int == if v < 26 { 97 + v } else { 24 + v },
{
}

proof fn lemma_symbol_injective(a: int, b: int)
    requires
        0 <= a < 32,
        0 <= b < 32,
        base32_symbol(a) == base32_symbol(b),
    ensures
        a == b,
{
    lemma_symbol_valid(a);
    lemma_symbol_valid(b);
}

proof fn lemma_group_symbols_valid(g: Seq<u8>)
    requires
        g.len() == 5,
    ensures
        group_symbols(g).len() == 8,
        forall|k: int| 0 <= k < 8 ==> is_base32_char(#[trigger] group_symbols(g)[k]),
{
    assert forall|k: int| 0 <= k < 8 implies is_base32_char(#[trigger] group_symbols(g)[k]) by {
        vstd::arithmetic::power::lemma_pow_positive(32, (7 - k) as nat);
        let q = (group_value(g) / pow(32, (7 - k) as nat)) % 32;
        lemma_symbol_valid(q);
    }
}

/// Base32 output has eight symbols per group of five bytes, all from the
/// alphabet.
proof fn lemma_base32_form(bytes: Seq<u8>)
    requires
        bytes.len() % 5 == 0,
    ensures
        base32_lower(bytes).len() == bytes.len() / 5 * 8,
        forall|i: int| 0 <= i < base32_lower(bytes).len() ==> is_base32_char(#[trigger] base32_lower(bytes)[i]),
    decreases bytes.len(),
{
    if bytes.len() >= 5 {
        lemma_group_symbols_valid(bytes.take(5));
        lemma_base32_form(bytes.skip(5));
        let a = group_symbols(bytes.take(5));
        let b = base32_lower(bytes.skip(5));
        assert forall|i: int| 0 <= i < (a + b).len() implies is_base32_char(#[trigger] (a + b)[i]) by {
            if i < 8 {
                assert((a + b)[i] == a[i]);
            } else {
                assert((a + b)[i] == b[i - 8]);
            }
        }
    }
}

spec fn pack(g: Seq<u8>) -> u64 {
    (g[0] as u64) << 32u64 | (g[1] as u64) << 24u64 | (g[2] as u64) << 16u64 | (g[3] as u64) << 8u64
        | (g[4] as u64)
}

proof fn lemma_quintets_agree(g1: Seq<u8>, g2: Seq<u8>, k: u64)
    requires
        g1.len() == 5,
        g2.len() == 5,
        group_symbols(g1) == group_symbols(g2),
        k < 8,
    ensures
        ((pack(g1) >> (35 - 5 * k) as u64) & 31) == ((pack(g2) >> (35 - 5 * k) as u64) & 31),
        pack(g1) < 0x100_0000_0000,
        pack(g2) < 0x100_0000_0000,
{
    lemma_group_pack(g1[0], g1[1], g1[2], g1[3], g1[4]);
    lemma_group_pack(g2[0], g2[1], g2[2], g2[3], g2[4]);
    lemma_extract(pack(g1), k);
    lemma_extract(pack(g2), k);
    vstd::arithmetic::power::lemma_pow_positive(32, (7 - k) as nat);
    assert(group_symbols(g1)[k as int] == group_symbols(g2)[k as int]);
    let ki = k as int;
    assert(group_symbols(g1)[ki] == base32_symbol((group_value(g1) / pow(32, (7 - ki) as nat)) % 32));
    assert(group_symbols(g2)[ki] == base32_symbol((group_value(g2) / pow(32, (7 - ki) as nat)) % 32));
    lemma_symbol_injective(
        (group_value(g1) / pow(32, (7 - k) as nat)) % 32,
        (group_value(g2) / pow(32, (7 - k) as nat)) % 32,
    );
}

proof fn lemma_group_injective(g1: Seq<u8>, g2: Seq<u8>)
    requires
        g1.len() == 5,
        g2.len() == 5,
        group_symbols(g1) == group_symbols(g2),
    ensures
        g1 == g2,
{
    let v1 = pack(g1);
    let v2 = pack(g2);
    lemma_quintets_agree(g1, g2, 0);
    lemma_quintets_agree(g1, g2, 1);
    lemma_quintets_agree(g1, g2, 2);
    lemma_quintets_agree(g1, g2, 3);
    lemma_quintets_agree(g1, g2, 4);
    lemma_quintets_agree(g1, g2, 5);
    lemma_quintets_agree(g1, g2, 6);
    lemma_quintets_agree(g1, g2, 7);
    assert(v1 == v2) by (bit_vector)
        requires
            v1 < 0x100_0000_0000,
            v2 < 0x100_0000_0000,
            (v1 >> 35u64) & 31 == (v2 >> 35u64) & 31,
            (v1 >> 30u64) & 31 == (v2 >> 30u64) & 31,
            (v1 >> 25u64) & 31 == (v2 >> 25u64) & 31,
            (v1 >> 20u64) & 31 == (v2 >> 20u64) & 31,
            (v1 >> 15u64) & 31 == (v2 >> 15u64) & 31,
            (v1 >> 10u64) & 31 == (v2 >> 10u64) & 31,
            (v1 >> 5u64) & 31 == (v2 >> 5u64) & 31,
            (v1 >> 0u64) & 31 == (v2 >> 0u64) & 31,
    ;
    let a0 = g1[0];
    let a1 = g1[1];
    let a2 = g1[2];
    let a3 = g1[3];
    let a4 = g1[4];
    let c0 = g2[0];
    let c1 = g2[1];
    let c2 = g2[2];
    let c3 = g2[3];
    let c4 = g2[4];
    assert(a0 == c0 && a1 == c1 && a2 == c2 && a3 == c3 && a4 == c4) by (bit_vector)
        requires
            (a0 as u64) << 32u64 | (a1 as u64) << 24u64 | (a2 as u64) << 16u64 | (a3 as u64) << 8u64 | (a4 as u64)
            == (c0 as u64) << 32u64 | (c1 as u64) << 24u64 | (c2 as u64) << 16u64 | (c3 as u64) << 8u64 | (c4 as u64),
    ;
    assert(g1 =~= g2);
}

/// Base32 text of whole groups determines the bytes it encodes: equal
/// texts of equally long inputs come from equal inputs.
pub proof fn lemma_base32_injective(a: Seq<u8>, b: Seq<u8>)
    requires
        a.len() == b.len(),
        a.len() % 5 == 0,
        base32_lower(a) == base32_lower(b),
    ensures
        a == b,
    decreases a.len(),
{
    if a.len() >= 5 {
        lemma_base32_form(a.skip(5));
        lemma_base32_form(b.skip(5));
        lemma_group_symbols_valid(a.take(5));
        lemma_group_symbols_valid(b.take(5));
        let la = group_symbols(a.take(5));
        let lb = group_symbols(b.take(5));
        assert(base32_lower(a) == la + base32_lower(a.skip(5)));
        assert(base32_lower(b) == lb + base32_lower(b.skip(5)));
        assert(la == (la + base32_lower(a.skip(5))).take(8));
        assert(lb == (lb + base32_lower(b.skip(5))).take(8));
        assert(base32_lower(a.skip(5)) == (la + base32_lower(a.skip(5))).skip(8));
        assert(base32_lower(b.skip(5)) == (lb + base32_lower(b.skip(5))).skip(8));
        lemma_group_injective(a.take(5), b.take(5));
        lemma_base32_injective(a.skip(5), b.skip(5));
        assert(a =~= a.take(5) + a.skip(5));
        assert(b =~= b.take(5) + b.skip(5));
    } else {
        assert(a =~= b);
    }
}

/// Every v3 address is 56 symbols of the base32 alphabet followed by
/// `.onion`.
pub proof fn lemma_onion_address_form(pubkey: Seq<u8>)
    requires
        pubkey.len() == 32,
    ensures
        onion_address_text(pubkey).len() == 62,
        onion_address_text(pubkey).subrange(56, 62) == ".onion"@,
        forall|i: int| 0 <= i < 56 ==> is_base32_char(#[trigger] onion_address_text(pubkey)[i]),
{
    reveal_strlit(".onion");
    let bytes = onion_address_bytes(pubkey);
    assert(bytes.len() == 35);
    lemma_base32_form(bytes);
    let t = onion_address_text(pubkey);
    assert(t.subrange(56, 62) =~= ".onion"@);
    assert forall|i: int| 0 <= i < 56 implies is_base32_char(#[trigger] t[i]) by {
        assert(t[i] == base32_lower(bytes)[i]);
    }
}

/// Distinct public keys have distinct addresses: the address determines
/// the key.
pub proof fn lemma_onion_address_injective(pk1: Seq<u8>, pk2: Seq<u8>)
    requires
        pk1.len() == 32,
        pk2.len() == 32,
        onion_address_text(pk1) == onion_address_text(pk2),
    ensures
        pk1 == pk2,
{
    let b1 = onion_address_bytes(pk1);
    let b2 = onion_address_bytes(pk2);
    lemma_base32_form(b1);
    lemma_base32_form(b2);
    let t1 = onion_address_text(pk1);
    assert(base32_lower(b1) == t1.take(56));
    assert(base32_lower(b2) == onion_address_text(pk2).take(56));
    lemma_base32_injective(b1, b2);
    assert(pk1 == b1.take(32));
    assert(pk2 == b2.take(32));
}


/// Whether `address` is the v3 address of some ed25519 public key.
pub open spec fn is_key_address(address: Seq<char>) -> bool {
    exists|pubkey: Seq<u8>| pubkey.len() == 32 && address == #[trigger] onion_address_text(pubkey)
}

/// Every address of a key is 56 symbols of the
/// base32 alphabet followed by `.onion`.
pub proof fn lemma_key_address_form(address: Seq<char>)
    requires
        is_key_address(address),
    ensures
        address.len() == 62,
        address.subrange(56, 62) == ".onion"@,
        forall|i: int| 0 <= i < 56 ==> is_base32_char(#[trigger] address[i]),
{
    let pk = choose|pk: Seq<u8>| pk.len() == 32 && address == #[trigger] onion_address_text(pk);
    lemma_onion_address_form(pk);
}

// ---------------------------------------------------------------------------
// Base32 as positions in one big-endian number
// ---------------------------------------------------------------------------

/// `bytes` read as one big-endian number.
pub open spec fn be_value(bytes: Seq<u8>) -> int
    decreases bytes.len(),
{
    if bytes.len() == 0 {
        0
    } else {
        be_value(bytes.drop_last()) * 256 + bytes.last()
    }
}

proof fn lemma_be_value_nonneg(bytes: Seq<u8>)
    ensures
        be_value(bytes) >= 0,
    decreases bytes.len(),
{
    if bytes.len() > 0 {
        lemma_be_value_nonneg(bytes.drop_last());
    }
}

proof fn lemma_be_value_append(a: Seq<u8>, b: Seq<u8>)
    ensures
        be_value(a + b) == be_value(a) * pow(256, b.len()) + be_value(b),
    decreases b.len(),
{
    if b.len() == 0 {
        assert(a + b =~= a);
        vstd::arithmetic::power::lemma_pow0(256);
    } else {
        let b0 = b.drop_last();
        assert((a + b).drop_last() =~= a + b0);
        lemma_be_value_append(a, b0);
        vstd::arithmetic::power::lemma_pow_adds(256, b0.len(), 1);
        vstd::arithmetic::power::lemma_pow1(256);
        assert(be_value(a) * pow(256, b0.len()) * 256 == be_value(a) * pow(256, b.len())) by (nonlinear_arith)
            requires
                pow(256, b.len()) == pow(256, b0.len()) * 256,
        ;
        assert((be_value(a) * pow(256, b0.len()) + be_value(b0)) * 256 == be_value(a) * pow(256, b0.len()) * 256
            + be_value(b0) * 256) by (nonlinear_arith);
    }
}

proof fn lemma_be_value_group(g: Seq<u8>)
    requires
        g.len() == 5,
    ensures
        be_value(g) == group_value(g),
{
    let g4 = g.drop_last();
    let g3 = g4.drop_last();
    let g2 = g3.drop_last();
    let g1 = g2.drop_last();
    let g0 = g1.drop_last();
    assert(g0.len() == 0);
    assert(be_value(g0) == 0);
    assert(g1.last() == g[0]);
    assert(g2.last() == g[1]);
    assert(g3.last() == g[2]);
    assert(g4.last() == g[3]);
    assert(g.last() == g[4]);
    assert(be_value(g1) == g[0]);
    assert(be_value(g2) == g[0] * 256 + g[1]);
    assert(be_value(g3) == (g[0] * 256 + g[1]) * 256 + g[2]);
    assert(be_value(g4) == ((g[0] * 256 + g[1]) * 256 + g[2]) * 256 + g[3]);
}

/// Symbol `i` of the base32 text of whole groups is the `i`-th five-bit
/// digit, most significant first, of the bytes read as one big-endian
/// number: `(n >> (5 * (symbols - 1 - i))) & 31`.
pub proof fn lemma_base32_digits(bytes: Seq<u8>, i: int)
    requires
        bytes.len() % 5 == 0,
        0 <= i < bytes.len() / 5 * 8,
    ensures
        base32_lower(bytes).len() == bytes.len() / 5 * 8,
        base32_lower(bytes)[i] == base32_symbol(
            (be_value(bytes) / pow(32, (bytes.len() / 5 * 8 - 1 - i) as nat)) % 32,
        ),
    decreases bytes.len(),
{
    lemma_base32_form(bytes);
    let len = bytes.len();
    let a = bytes.take(len - 5);
    let g = bytes.skip(len - 5);
    assert(a + g =~= bytes);
    lemma_base32_push_group(a, g);
    lemma_base32_form(a);
    lemma_be_value_append(a, g);
    lemma_be_value_group(g);
    lemma_be_value_nonneg(a);
    lemma_group_pack(g[0], g[1], g[2], g[3], g[4]);
    let m = a.len() / 5 * 8;
    let x = be_value(a);
    let gv = group_value(g);
    assert(pow(256, 5) == 1099511627776) by {
        reveal_with_fuel(pow, 6);
    }
    lemma_pow32();
    assert(be_value(bytes) == x * 1099511627776 + gv);
    assert(0 <= gv < 1099511627776);
    if i >= m {
        let k = i - m;
        assert(0 <= k < 8);
        assert(base32_lower(bytes)[i] == group_symbols(g)[k]);
        let e = (7 - k) as nat;
        let d = pow(32, e);
        let c = pow(32, (k + 1) as nat);
        vstd::arithmetic::power::lemma_pow_adds(32, e, (k + 1) as nat);
        assert(pow(32, 8) == 1099511627776) by {
            reveal_with_fuel(pow, 9);
        }
        assert((e + (k + 1) as nat) as nat == 8);
        assert(d * c == 1099511627776);
        vstd::arithmetic::power::lemma_pow_positive(32, e);
        vstd::arithmetic::power::lemma_pow_adds(32, 1, k as nat);
        vstd::arithmetic::power::lemma_pow1(32);
        vstd::arithmetic::power::lemma_pow_positive(32, k as nat);
        let y = x * pow(32, k as nat);
        assert(x * c == 32 * y) by (nonlinear_arith)
            requires
                c == 32 * pow(32, k as nat),
                y == x * pow(32, k as nat),
        ;
        assert(x * 1099511627776 == (x * c) * d) by (nonlinear_arith)
            requires
                d * c == 1099511627776,
        ;
        vstd::arithmetic::div_mod::lemma_hoist_over_denominator(gv, x * c, d as nat);
        assert((be_value(bytes)) / d == gv / d + 32 * y);
        vstd::arithmetic::div_mod::lemma_mod_multiples_vanish(y, gv / d, 32);
        assert(len / 5 * 8 - 1 - i == 7 - k);
    } else {
        assert(base32_lower(bytes)[i] == base32_lower(a)[i]);
        lemma_base32_digits(a, i);
        let j = (m - 1 - i) as nat;
        assert(len / 5 * 8 - 1 - i == j + 8);
        vstd::arithmetic::power::lemma_pow_adds(32, 8, j);
        vstd::arithmetic::power::lemma_pow_positive(32, j);
        vstd::arithmetic::div_mod::lemma_div_denominator(be_value(bytes), 1099511627776, pow(32, j));
        vstd::arithmetic::div_mod::lemma_hoist_over_denominator(gv, x, 1099511627776);
        vstd::arithmetic::div_mod::lemma_basic_div(gv, 1099511627776);
        assert(be_value(bytes) / 1099511627776 == x);
        assert(pow(32, (j + 8) as nat) == 1099511627776 * pow(32, j)) by {
            assert(pow(32, 8) == 1099511627776) by {
                reveal_with_fuel(pow, 9);
            }
        }
    }
}

/// Symbol `i` of an address is the `i`-th five-bit digit, most significant
/// first, of the 35 address bytes read as one 280-bit big-endian number.
pub proof fn lemma_onion_address_digits(pubkey: Seq<u8>, i: int)
    requires
        pubkey.len() == 32,
        0 <= i < 56,
    ensures
        onion_address_text(pubkey)[i] == base32_symbol(
            (be_value(onion_address_bytes(pubkey)) / pow(32, (55 - i) as nat)) % 32,
        ),
        // The last symbol carries the low bits of the version byte 3.
        onion_address_text(pubkey)[55] == 'd',
{
    let bytes = onion_address_bytes(pubkey);
    lemma_base32_digits(bytes, i);
    lemma_base32_digits(bytes, 55);
    let x = be_value(bytes.drop_last());
    assert(bytes.last() == 3);
    assert(be_value(bytes) == x * 256 + 3);
    vstd::arithmetic::power::lemma_pow0(32);
    assert(x * 256 + 3 == 32 * (x * 8) + 3);
    vstd::arithmetic::div_mod::lemma_mod_multiples_vanish(x * 8, 3, 32);
    assert(be_value(bytes) / pow(32, 0) == be_value(bytes));
}

} // verus!
