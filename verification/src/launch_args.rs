//! The argument line the game client is started with, and the encryption
//! of the session id inside it.

use vstd::prelude::*;
use crate::config::{Language, Region};
use crate::error::Error;
use crate::numbers::{decimal, decimal_chars};
use crate::text::{append_chars, append_str, chars_of, string_of};

verus! {

/// The key the game client expects the session id to be encrypted with:
/// the bytes of `#:G$.,:5`.
pub open spec fn encryption_key() -> Seq<u8> {
    seq![0x23u8, 0x3Au8, 0x47u8, 0x24u8, 0x2Eu8, 0x2Cu8, 0x3Au8, 0x35u8]
}

fn key_bytes() -> (key: Vec<u8>)
    ensures
        key@ == encryption_key(),
{
    let mut key: Vec<u8> = Vec::new();
    key.push(0x23);
    key.push(0x3A);
    key.push(0x47);
    key.push(0x24);
    key.push(0x2E);
    key.push(0x2C);
    key.push(0x3A);
    key.push(0x35);
    assert(key@ =~= encryption_key());
    key
}

/// One block of eight bytes encrypted with Blowfish under `key`, the two
/// halves of the block read and written in little-endian byte order.
pub uninterp spec fn blowfish_block(key: Seq<u8>, block: Seq<u8>) -> Seq<u8>;

/// The character of a Base64 digit in the standard alphabet: `A` to `Z`,
/// `a` to `z`, `0` to `9`, `+` and `/`.
pub open spec fn base64_char(v: int) -> char {
    if v < 26 {
        (0x41 + v) as u8 as char
    } else if v < 52 {
        (0x61 + v - 26) as u8 as char
    } else if v < 62 {
        (0x30 + v - 52) as u8 as char
    } else if v == 62 {
        '+'
    } else {
        '/'
    }
}

/// The text of bytes in Base64, standard alphabet, with padding: each
/// three bytes give four digits of six bits, most significant first; one or
/// two bytes left over give two or three digits and `=` up to four.
pub open spec fn base64_standard(data: Seq<u8>) -> Seq<char>
    decreases data.len(),
{
    if data.len() == 0 {
        Seq::empty()
    } else if data.len() == 1 {
        seq![base64_char(data[0] as int / 4), base64_char(data[0] as int % 4 * 16), '=', '=']
    } else if data.len() == 2 {
        seq![
            base64_char(data[0] as int / 4),
            base64_char(data[0] % 4 * 16 + data[1] / 16),
            base64_char(data[1] % 16 * 4),
            '=',
        ]
    } else {
        seq![
            base64_char(data[0] as int / 4),
            base64_char(data[0] % 4 * 16 + data[1] / 16),
            base64_char(data[1] % 16 * 4 + data[2] / 64),
            base64_char(data[2] as int % 64),
        ] + base64_standard(data.skip(3))
    }
}

/// `blowfish::Blowfish::<LittleEndian>::new_from_slice` and
/// `BlockEncrypt::encrypt_block`: the block encrypted under the key. A key
/// of fewer than 4 or more than 56 bytes is refused. The result has the
/// eight bytes of a block.
#[verifier::external_body]
fn encrypt_block(key: &[u8], block: &[u8]) -> (r: Option<Vec<u8>>)
    requires
        block@.len() == 8,
    ensures
        r is Some <==> 4 <= key@.len() <= 56,
        r matches Some(out) ==> out@ == blowfish_block(key@, block@) && out@.len() == 8,
{
    let cipher = <blowfish::Blowfish<byteorder::LittleEndian> as blowfish::cipher::KeyInit>::new_from_slice(key).ok()?;
    let mut b = blowfish::cipher::generic_array::GenericArray::clone_from_slice(block);
    blowfish::cipher::BlockEncrypt::encrypt_block(&cipher, &mut b);
    Some(b.to_vec())
}

/// `base64::engine::general_purpose::STANDARD.encode`: the Base64 text of
/// `data`.
#[verifier::external_body]
fn base64_encode(data: &[u8]) -> (s: String)
    ensures
        s@ == base64_standard(data@),
{
    base64::Engine::encode(&base64::engine::general_purpose::STANDARD, data)
}

/// `data` filled up to whole blocks of eight bytes: between one and eight
/// bytes are added, each of them the number of bytes added.
pub open spec fn pkcs7_padded(data: Seq<u8>) -> Seq<u8> {
    let pad = 8 - data.len() % 8;
    data + Seq::new(pad as nat, |i: int| pad as u8)
}

/// Each block of eight bytes of `data` encrypted on its own, in order.
pub open spec fn ecb(key: Seq<u8>, data: Seq<u8>) -> Seq<u8>
    decreases data.len(),
{
    if data.len() < 8 {
        Seq::empty()
    } else {
        blowfish_block(key, data.take(8)) + ecb(key, data.skip(8))
    }
}

/// The bytes of a text encrypted for the game client.
pub open spec fn encrypted_bytes(plain: Seq<u8>) -> Seq<u8> {
    ecb(encryption_key(), pkcs7_padded(plain))
}

/// The encrypted session id as it stands in the argument line.
pub open spec fn encrypted_text(plain: Seq<char>) -> Seq<char> {
    base64_standard(encrypted_bytes(vstd::utf8::encode_utf8(plain)))
}

/// Encrypts `plain` for the game client: padded to whole blocks, each
/// block encrypted on its own.
pub fn encrypt_bytes(plain: &[u8]) -> (out: Vec<u8>)
    ensures
        out@ == encrypted_bytes(plain@),
        out@.len() == plain@.len() + 8 - plain@.len() % 8,
{
    let mut buffer: Vec<u8> = Vec::new();
    buffer.extend_from_slice(plain);
    let pad: usize = 8 - plain.len() % 8;
    let mut i: usize = 0;
    while i < pad
        invariant
            i <= pad,
            1 <= pad <= 8,
            buffer@ == plain@ + Seq::new(i as nat, |k: int| pad as u8),
        decreases pad - i,
    {
        buffer.push(pad as u8);
        assert(buffer@ =~= plain@ + Seq::new((i + 1) as nat, |k: int| pad as u8));
        i += 1;
    }
    assert(buffer@ == pkcs7_padded(plain@));
    assert(buffer@.len() % 8 == 0) by {
        assert(buffer@.len() == plain@.len() + pad);
    }
    let key = key_bytes();
    let mut out: Vec<u8> = Vec::new();
    let mut at: usize = 0;
    assert(buffer@.skip(0) == buffer@);
    while at < buffer.len()
        invariant
            at <= buffer.len(),
            at % 8 == 0,
            buffer@.len() % 8 == 0,
            key@ == encryption_key(),
            out@.len() == at,
            out@ + ecb(key@, buffer@.skip(at as int)) == ecb(key@, buffer@),
        decreases buffer.len() - at,
    {
        let ghost rest = buffer@.skip(at as int);
        assert(rest.len() >= 8);
        let block = &buffer[at..at + 8];
        assert(block@ == rest.take(8));
        assert(rest.skip(8) == buffer@.skip(at + 8));
        match encrypt_block(key.as_slice(), block) {
            Some(enc) => {
                let ghost before = out@;
                out.extend_from_slice(enc.as_slice());
                assert(out@ + ecb(key@, buffer@.skip(at + 8)) =~= before + (blowfish_block(
                    key@,
                    rest.take(8),
                ) + ecb(key@, rest.skip(8))));
            },
            None => {
                assert(false);
            },
        }
        at += 8;
    }
    assert(ecb(key@, buffer@.skip(buffer.len() as int)) =~= Seq::<u8>::empty());
    assert(out@ =~= out@ + Seq::<u8>::empty());
    out
}

/// Encrypts a text for the game client and writes the result in Base64.
pub fn encrypt_argument(plain_text: &str) -> (r: Result<String, Error>)
    ensures
        r matches Ok(s) && s@ == encrypted_text(plain_text@),
{
    let bytes = encrypt_bytes(plain_text.as_bytes());
    Ok(base64_encode(bytes.as_slice()))
}

/// A session id encrypted for the argument line.
#[derive(Debug, Clone)]
pub struct EncryptedSessionId(String);

impl View for EncryptedSessionId {
    type V = Seq<char>;

    closed spec fn view(&self) -> Seq<char> {
        self.0@
    }
}

impl EncryptedSessionId {
    /// Encrypts a session id. Equal ids give equal results.
    pub fn new(raw_session_id: &str) -> (r: Result<Self, Error>)
        ensures
            r matches Ok(e) && e@ == encrypted_text(raw_session_id@),
    {
        match encrypt_argument(raw_session_id) {
            Ok(s) => Ok(EncryptedSessionId(s)),
            Err(e) => Err(e),
        }
    }

    pub fn as_str(&self) -> (s: &str)
        ensures
            s@ == self@,
    {
        self.0.as_str()
    }
}

/// What the argument line is built from.
pub struct LaunchParams<'a> {
    pub session_id: &'a EncryptedSessionId,
    pub max_expansion: u32,
    pub game_version: &'a str,
    pub is_steam: bool,
    pub region: Region,
    pub language: Language,
}

/// The argument line for the given values.
pub open spec fn launch_args_text(
    session_id: Seq<char>,
    max_expansion: u32,
    game_version: Seq<char>,
    is_steam: bool,
    region: Region,
    language: Language,
) -> Seq<char> {
    "DEV.DataPathType=1 DEV.MaxEntitledExpansionID="@ + decimal(max_expansion as nat)
        + " DEV.TestSID="@ + session_id + " DEV.UseSqPack=1 SYS.Region="@ + decimal(
        region.id() as nat,
    ) + " language="@ + decimal(language.id() as nat) + " ver="@ + game_version + " IsSteam="@ + (
    if is_steam {
        "1"@
    } else {
        "0"@
    })
}

/// The argument line of the game client.
pub fn build_launch_args(params: &LaunchParams<'_>) -> (args: String)
    ensures
        args@ == launch_args_text(
            params.session_id@,
            params.max_expansion,
            params.game_version@,
            params.is_steam,
            params.region,
            params.language,
        ),
{
    let mut out = chars_of("DEV.DataPathType=1 DEV.MaxEntitledExpansionID=");
    let n = decimal_chars(params.max_expansion as u64);
    append_chars(&mut out, n.as_slice());
    append_str(&mut out, " DEV.TestSID=");
    append_str(&mut out, params.session_id.as_str());
    append_str(&mut out, " DEV.UseSqPack=1 SYS.Region=");
    let r = decimal_chars(params.region.as_id() as u64);
    append_chars(&mut out, r.as_slice());
    append_str(&mut out, " language=");
    let l = decimal_chars(params.language.as_id() as u64);
    append_chars(&mut out, l.as_slice());
    append_str(&mut out, " ver=");
    append_str(&mut out, params.game_version);
    append_str(&mut out, " IsSteam=");
    if params.is_steam {
        append_str(&mut out, "1");
    } else {
        append_str(&mut out, "0");
    }
    assert(out@ =~= launch_args_text(
        params.session_id@,
        params.max_expansion,
        params.game_version@,
        params.is_steam,
        params.region,
        params.language,
    ));
    string_of(out.as_slice())
}

/// Encryption adds nothing of its own: session ids with the same text
/// give the same encrypted text, and equal values the same argument line.
pub proof fn lemma_launch_args_deterministic(
    raw_a: Seq<char>,
    raw_b: Seq<char>,
    max_expansion: u32,
    game_version: Seq<char>,
    is_steam: bool,
    region: Region,
    language: Language,
)
    requires
        raw_a == raw_b,
    ensures
        encrypted_text(raw_a) == encrypted_text(raw_b),
        launch_args_text(
            encrypted_text(raw_a),
            max_expansion,
            game_version,
            is_steam,
            region,
            language,
        ) == launch_args_text(
            encrypted_text(raw_b),
            max_expansion,
            game_version,
            is_steam,
            region,
            language,
        ),
{
}

} // verus!
