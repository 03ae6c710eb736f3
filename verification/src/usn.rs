use crate::error::Error;
use rand::Rng;
use rand::SeedableRng;
use vstd::prelude::*;
use vstd::string::StringExecFns;
use vstd::string::StringSliceAdditionalSpecFns;

verus! {

/// The decimal digits of `n`, in ASCII, without leading zeros.
pub open spec fn decimal_digits(n: nat) -> Seq<u8>
    decreases n,
{
    if n < 10 {
        seq![(48 + n) as u8]
    } else {
        decimal_digits(n / 10) + seq![(48 + n % 10) as u8]
    }
}

/// The first 32 bytes of `source`, filled up with zeros.
pub open spec fn seed_of(source: Seq<u8>) -> Seq<u8> {
    Seq::new(32, |i: int| if i < source.len() { source[i] } else { 0u8 })
}

/// The bytes that name a server: its host, its friendly name, its port in
/// decimal and the prefix of its paths, one after the other.
pub open spec fn usn_source(
    hostname: Seq<u8>,
    friendly_name: Seq<u8>,
    http_listen_port: u16,
    http_prefix: Seq<u8>,
) -> Seq<u8> {
    hostname + friendly_name + decimal_digits(http_listen_port as nat) + http_prefix
}

/// The lower-case hexadecimal digit of `n`, for `n` below 16.
pub open spec fn hex_digit(n: int) -> char {
    if n < 10 {
        (48 + n) as u8 as char
    } else {
        (87 + n) as u8 as char
    }
}

/// Two hexadecimal digits for each byte of `bytes`.
pub open spec fn hex_text(bytes: Seq<u8>) -> Seq<char>
    decreases bytes.len(),
{
    if bytes.len() == 0 {
        seq![]
    } else {
        hex_text(bytes.drop_last()) + seq![
            hex_digit(bytes.last() as int / 16),
            hex_digit(bytes.last() as int % 16),
        ]
    }
}

/// The usual text of a UUID of 16 bytes: groups of 4, 2, 2, 2 and 6 bytes
/// in lower-case hexadecimal digits, with hyphens between them.
pub open spec fn uuid_text(bytes: Seq<u8>) -> Seq<char> {
    hex_text(bytes.subrange(0, 4)) + seq!['-'] + hex_text(bytes.subrange(4, 6)) + seq!['-']
        + hex_text(bytes.subrange(6, 8)) + seq!['-'] + hex_text(bytes.subrange(8, 10)) + seq!['-']
        + hex_text(bytes.subrange(10, 16))
}

/// The first 16 bytes that the small generator of `rand` gives once it is
/// started from the 32 bytes of `seed`.
pub uninterp spec fn small_rng_fill(seed: Seq<u8>) -> Seq<u8>;

/// `rand::rngs::SmallRng::from_seed`, then `rand::Rng::fill`: the first 16
/// bytes of the generator that `seed` starts. A seed of 32 bytes is that of
/// the generator for 64-bit targets, the only ones on which this call
/// compiles; its state is the seed read as little-endian words, and its
/// output is arithmetic on that state, written little-endian. So the bytes
/// depend on the seed alone. `fill` gives up only where the generator fails,
/// which this one never does.
#[verifier::external_body]
fn small_rng_bytes(seed: [u8; 32]) -> (bytes: [u8; 16])
    ensures
        bytes@ == small_rng_fill(seed@),
{
    let mut bytes = [0u8; 16];
    rand::rngs::SmallRng::from_seed(seed).fill(&mut bytes);
    bytes
}

/// `uuid::Builder::from_slice`, `uuid::Builder::into_uuid` and the `Display`
/// of `uuid::Uuid`: the text of the UUID that holds `bytes`, in lower-case
/// digits with hyphens, or nothing where `bytes` are not 16.
#[verifier::external_body]
fn uuid_from_slice(bytes: &[u8]) -> (res: Option<String>)
    ensures
        match res {
            Some(text) => bytes@.len() == 16 && text@ == uuid_text(bytes@),
            None => bytes@.len() != 16,
        },
{
    match uuid::Builder::from_slice(bytes) {
        Ok(builder) => Some(format!("{}", builder.into_uuid())),
        Err(_) => None,
    }
}

/// The decimal digits of `n`, in ASCII.
pub fn decimal(n: u16) -> (digits: Vec<u8>)
    ensures
        digits@ == decimal_digits(n as nat),
    decreases n,
{
    if n < 10 {
        let mut digits: Vec<u8> = Vec::new();
        digits.push(48 + n as u8);
        assert(digits@ =~= decimal_digits(n as nat));
        digits
    } else {
        let mut digits = decimal(n / 10);
        digits.push(48 + (n % 10) as u8);
        digits
    }
}

/// Writes `bytes` behind the `filled` bytes that `seed` holds already, as
/// far as there is room.
fn write_behind(seed: [u8; 32], filled: usize, bytes: &[u8], Ghost(written): Ghost<Seq<u8>>) -> (res:
    ([u8; 32], usize))
    requires
        seed@ == seed_of(written),
        filled == if written.len() < 32 {
            written.len()
        } else {
            32
        },
    ensures
        res.0@ == seed_of(written + bytes@),
        res.1 == if (written + bytes@).len() < 32 {
            (written + bytes@).len()
        } else {
            32
        },
{
    let mut seed = seed;
    let mut filled = filled;
    let mut i: usize = 0;
    while i < bytes.len() && filled < 32
        invariant
            0 <= i <= bytes.len(),
            seed@ == seed_of(written + bytes@.take(i as int)),
            filled == if written.len() + i < 32 {
                written.len() + i
            } else {
                32
            },
        decreases bytes.len() - i,
    {
        seed[filled] = bytes[i];
        filled = filled + 1;
        i = i + 1;
        assert(seed@ =~= seed_of(written + bytes@.take(i as int)));
    }
    assert(seed@ =~= seed_of(written + bytes@));
    (seed, filled)
}

/// The seed that names a server: the first 32 bytes of its host, its
/// friendly name, its port in decimal and the prefix of its paths, filled
/// up with zeros.
pub fn usn_seed(hostname: &[u8], friendly_name: &str, http_listen_port: u16, http_prefix: &str) -> (seed:
    [u8; 32])
    ensures
        seed@ == seed_of(
            usn_source(
                hostname@,
                friendly_name.spec_bytes(),
                http_listen_port,
                http_prefix.spec_bytes(),
            ),
        ),
{
    let seed = [0u8; 32];
    assert(seed@ =~= seed_of(Seq::<u8>::empty()));
    let (seed, filled) = write_behind(seed, 0, hostname, Ghost(Seq::empty()));
    assert(Seq::<u8>::empty() + hostname@ =~= hostname@);
    let (seed, filled) = write_behind(seed, filled, friendly_name.as_bytes(), Ghost(hostname@));
    let digits = decimal(http_listen_port);
    let (seed, filled) = write_behind(
        seed,
        filled,
        digits.as_slice(),
        Ghost(hostname@ + friendly_name.spec_bytes()),
    );
    let (seed, filled) = write_behind(
        seed,
        filled,
        http_prefix.as_bytes(),
        Ghost(hostname@ + friendly_name.spec_bytes() + decimal_digits(http_listen_port as nat)),
    );
    seed
}

/// The unique service name that the 16 bytes of a UUID give: "uuid:" and
/// the text of the UUID.
pub fn usn_of(bytes: &[u8; 16]) -> (res: Result<String, Error>)
    ensures
        res matches Ok(usn) && usn@ == "uuid:"@ + uuid_text(bytes@),
{
    match uuid_from_slice(bytes.as_slice()) {
        Some(text) => {
            let mut usn = "uuid:".to_owned();
            usn.append(text.as_str());
            Ok(usn)
        },
        None => Err(Error::Failed("error generating UUID".to_owned())),
    }
}

/// `usn` is "uuid:" and the text of a UUID.
pub open spec fn is_usn(usn: Seq<char>) -> bool {
    exists|bytes: Seq<u8>| bytes.len() == 16 && usn == "uuid:"@ + #[trigger] uuid_text(bytes)
}

/// The unique service name of a server on the host `hostname`: "uuid:" and
/// the UUID whose bytes are the first 16 of the generator that the seed of
/// the server starts.
pub fn create_usn(
    hostname: &[u8],
    friendly_name: &str,
    http_listen_port: u16,
    http_prefix: &str,
) -> (res: Result<String, Error>)
    ensures
        res matches Ok(usn) && is_usn(usn@) && usn@ == "uuid:"@ + uuid_text(
            small_rng_fill(
                seed_of(
                    usn_source(
                        hostname@,
                        friendly_name.spec_bytes(),
                        http_listen_port,
                        http_prefix.spec_bytes(),
                    ),
                ),
            ),
        ),
{
    let seed = usn_seed(hostname, friendly_name, http_listen_port, http_prefix);
    let bytes = small_rng_bytes(seed);
    usn_of(&bytes)
}

} // verus!
