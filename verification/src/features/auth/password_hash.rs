use vstd::prelude::*;
use vstd::utf8::*;

use argon2::Error as Argon2Error;
use argon2::{ThreadMode, Variant, Version};

use crate::common::error::{password_hash_failure, Error, ErrorSource};
use crate::features::auth::random_string;
use crate::features::auth::random_string::is_alphanumeric;
use crate::text::decimal;

verus! {

/// The variants of Argon2.
#[derive(Debug, Clone, Copy, PartialEq, Eq, Structural)]
pub enum HashVariant {
    Argon2d,
    Argon2i,
    Argon2id,
}

/// The versions of Argon2.
#[derive(Debug, Clone, Copy, PartialEq, Eq, Structural)]
pub enum HashVersion {
    Version10,
    Version13,
}

/// Whether the lanes of Argon2 are computed on one thread or on several.
#[derive(Debug, Clone, Copy, PartialEq, Eq, Structural)]
pub enum HashThreads {
    Sequential,
    Parallel,
}

/// The parameters of Argon2 (no secret key and no associated data).
#[derive(Debug, Clone, Copy)]
pub struct HashConfig {
    pub variant: HashVariant,
    pub version: HashVersion,
    pub mem_cost: u32,
    pub time_cost: u32,
    pub lanes: u32,
    pub thread_mode: HashThreads,
    pub hash_length: u32,
}

/// The number by which Argon2 identifies a variant.
pub open spec fn variant_number(v: HashVariant) -> u32 {
    match v {
        HashVariant::Argon2d => 0,
        HashVariant::Argon2i => 1,
        HashVariant::Argon2id => 2,
    }
}

/// The number by which Argon2 identifies a version.
pub open spec fn version_number(v: HashVersion) -> u32 {
    match v {
        HashVersion::Version10 => 0x10,
        HashVersion::Version13 => 0x13,
    }
}

/// What `argon2::hash_encoded` returns for a password, a salt and the
/// parameters (variant and version by number, memory cost, time cost,
/// lanes, hash length; no secret key, no associated data): the encoded
/// hash, or `None` where it reports an error.
pub uninterp spec fn argon2_encoded(
    password: Seq<u8>,
    salt: Seq<u8>,
    variant: u32,
    version: u32,
    mem_cost: u32,
    time_cost: u32,
    lanes: u32,
    hash_length: u32,
) -> Option<Seq<char>>;

/// What `argon2::verify_encoded` returns for an encoded hash and a
/// password: whether they match, or `None` where it reports an error.
pub uninterp spec fn argon2_verified(encoded: Seq<char>, password: Seq<u8>) -> Option<bool>;

/// The encoded hash of `password` with `salt` under `config`.
pub open spec fn encoded_with(password: Seq<u8>, salt: Seq<u8>, config: HashConfig) -> Option<
    Seq<char>,
> {
    argon2_encoded(
        password,
        salt,
        variant_number(config.variant),
        version_number(config.version),
        config.mem_cost,
        config.time_cost,
        config.lanes,
        config.hash_length,
    )
}

/// The name by which an encoded hash gives its variant.
pub open spec fn variant_name(v: HashVariant) -> Seq<char> {
    match v {
        HashVariant::Argon2d => seq!['a', 'r', 'g', 'o', 'n', '2', 'd'],
        HashVariant::Argon2i => seq!['a', 'r', 'g', 'o', 'n', '2', 'i'],
        HashVariant::Argon2id => seq!['a', 'r', 'g', 'o', 'n', '2', 'i', 'd'],
    }
}

/// The head of an encoded hash, before the salt and the digest:
/// `$<variant>$v=<version>$m=<memory>,t=<passes>,p=<lanes>$`.
pub open spec fn encoded_header(config: HashConfig) -> Seq<char> {
    seq!['$'] + variant_name(config.variant) + seq!['$', 'v', '='] + decimal(
        version_number(config.version) as nat,
    ) + seq!['$', 'm', '='] + decimal(config.mem_cost as nat) + seq![',', 't', '='] + decimal(
        config.time_cost as nat,
    ) + seq![',', 'p', '='] + decimal(config.lanes as nat) + seq!['$']
}

/// The head of every hash that `new` makes: `$argon2i$v=19$m=15360,t=10,p=4$`.
pub open spec fn password_hash_header() -> Seq<char> {
    seq![
        '$', 'a', 'r', 'g', 'o', 'n', '2', 'i', '$', 'v', '=', '1', '9', '$', 'm', '=', '1', '5',
        '3', '6', '0', ',', 't', '=', '1', '0', ',', 'p', '=', '4', '$',
    ]
}

/// Parameters under which `argon2::Context::new` accepts a password of
/// `password_len` bytes and a salt of `salt_len` bytes: 1 to 0xFFFFFF lanes,
/// at least 8 blocks of memory per lane and at most 0x200000 (the limit of
/// 32-bit targets), at least one pass, a hash of at least 4 bytes, a
/// password of at most 2^32 - 1 bytes and a salt of 8 to 2^32 - 1 bytes.
pub open spec fn accepted_by_argon2(password_len: nat, salt_len: nat, config: HashConfig) -> bool {
    &&& 1 <= config.lanes <= 0xFF_FFFF
    &&& 8 * config.lanes <= config.mem_cost <= 0x20_0000
    &&& 1 <= config.time_cost
    &&& 4 <= config.hash_length
    &&& password_len <= 0xFFFF_FFFF
    &&& 8 <= salt_len <= 0xFFFF_FFFF
}

/// `argon2::hash_encoded` with `config` (and no secret key, no associated
/// data). Its result is named `argon2_encoded`, which does not depend on
/// the thread mode; the contract states further the conditions under which
/// the crate's `Context::new` accepts the input, so that the hash succeeds,
/// and the head that the crate's `encode_string` writes before the salt and
/// the digest (which are left to the name).
#[verifier::external_body]
pub(crate) fn hash_encoded(password: &[u8], salt: &[u8], config: &HashConfig) -> (res: Result<String, Argon2Error>)
    ensures
        res is Ok <==> argon2_encoded(password@, salt@, variant_number(config.variant),
            version_number(config.version), config.mem_cost, config.time_cost, config.lanes,
            config.hash_length) is Some,
        res matches Ok(e) ==> argon2_encoded(password@, salt@, variant_number(config.variant),
            version_number(config.version), config.mem_cost, config.time_cost, config.lanes,
            config.hash_length) == Some(e@),
        accepted_by_argon2(password@.len(), salt@.len(), *config) ==> res is Ok,
        res matches Ok(e) ==> encoded_header(*config).is_prefix_of(e@),
{
    let variant = match config.variant {
        HashVariant::Argon2d => Variant::Argon2d,
        HashVariant::Argon2i => Variant::Argon2i,
        HashVariant::Argon2id => Variant::Argon2id,
    };
    let version = if let HashVersion::Version10 = config.version { Version::Version10 } else { Version::Version13 };
    let thread_mode = if let HashThreads::Parallel = config.thread_mode { ThreadMode::Parallel } else { ThreadMode::Sequential };
    let (mem_cost, time_cost, lanes, hash_length) = (config.mem_cost, config.time_cost, config.lanes, config.hash_length);
    let config = argon2::Config { ad: &[], secret: &[], hash_length, lanes, mem_cost, thread_mode, time_cost, variant, version };
    argon2::hash_encoded(password, salt, &config)
}

/// Whether `encoded` is what `argon2::hash_encoded` returns for `password`
/// with some salt and some parameters (no secret key, no associated data).
pub open spec fn hashed_by_argon2(encoded: Seq<char>, password: Seq<u8>) -> bool {
    exists|salt: Seq<u8>, config: HashConfig| #[trigger] encoded_with(password, salt, config) == Some(encoded)
}

/// `argon2::verify_encoded`. Its result is named `argon2_verified`; the
/// contract states further that an encoded hash that `hash_encoded` made of
/// a password (without secret key or associated data) verifies against that
/// password: the crate decodes the parameters, the salt and the hash from
/// the text and hashes the password again with them.
#[verifier::external_body]
fn verify_encoded(encoded: &str, password: &[u8]) -> (res: Result<bool, Argon2Error>)
    ensures
        res is Ok <==> argon2_verified(encoded@, password@) is Some,
        res matches Ok(b) ==> argon2_verified(encoded@, password@) == Some(b),
        hashed_by_argon2(encoded@, password@) ==> res is Ok && res->Ok_0,
{
    argon2::verify_encoded(encoded, password)
}

/// The parameters with which passwords are hashed: Argon2i, version 0x13,
/// 15360 KiB of memory, 10 passes, 4 lanes computed in parallel, a hash of
/// 128 bytes.
pub fn password_config() -> (res: HashConfig)
    ensures
        res.variant == HashVariant::Argon2i,
        res.version == HashVersion::Version13,
        res.mem_cost == 15360,
        res.time_cost == 10,
        res.lanes == 4,
        res.thread_mode == HashThreads::Parallel,
        res.hash_length == 128,
{
    HashConfig {
        variant: HashVariant::Argon2i,
        version: HashVersion::Version13,
        mem_cost: 15360,
        time_cost: 10,
        lanes: 4,
        thread_mode: HashThreads::Parallel,
        hash_length: 128,
    }
}

/// Whether `salt` is a salt that `new` may draw: 128 characters from
/// `A`-`Z`, `a`-`z`, `0`-`9`.
pub open spec fn is_password_salt(salt: Seq<char>) -> bool {
    salt.len() == 128 && forall|i: int| 0 <= i < salt.len() ==> is_alphanumeric(#[trigger] salt[i])
}

/// The encoded hash of `password` with the salt `salt` under the
/// parameters of `password_config`.
pub open spec fn password_digest(password: Seq<char>, salt: Seq<char>) -> Option<Seq<char>> {
    argon2_encoded(encode_utf8(password), encode_utf8(salt), 1, 0x13, 15360, 10, 4, 128)
}

/// Hashes `password` with a fresh random salt of 128 alphanumeric
/// characters; the result is the encoded hash, which carries the salt and
/// the parameters. A failure of `argon2` is an internal error of the
/// service caused by it.
pub fn new(password: &str) -> (res: Result<String, Error>)
    ensures
        res matches Ok(h) ==> registered_hash(password@, h@),
        res matches Ok(h) ==> password_hash_header().is_prefix_of(h@),
        res matches Err(e) ==> password_hash_failure(e),
        encode_utf8(password@).len() <= 0xFFFF_FFFF ==> res is Ok,
{
    let salt = random_string::new(128);
    let config = password_config();
    let salt_bytes = salt.as_str().as_bytes();
    proof {
        assert(is_ascii_chars(salt@));
        is_ascii_chars_encode_utf8(salt@);
    }
    match hash_encoded(password.as_bytes(), salt_bytes, &config) {
        Ok(h) => {
            assert(password_digest(password@, salt@) == Some(h@));
            proof {
                lemma_password_config_header(config);
            }
            Ok(h)
        },
        Err(e) => Err(Error::from_parent(ErrorSource::PasswordHash(e))),
    }
}

/// Whether `password` matches the encoded hash `hash`; where the hash cannot
/// be decoded or its parameters are refused, an internal error of the
/// service caused by the failure of `argon2`.
pub fn verify(hash: &str, password: &str) -> (res: Result<bool, Error>)
    ensures
        res matches Ok(b) ==> argon2_verified(hash@, encode_utf8(password@)) == Some(b),
        res matches Err(e) ==> password_hash_failure(e) && argon2_verified(
            hash@,
            encode_utf8(password@),
        ) is None,
        verifies(password@, hash@) ==> (res is Ok && res->Ok_0),
{
    proof {
        if verifies(password@, hash@) {
            let salt = choose|salt: Seq<char>| #[trigger] password_digest(password@, salt) == Some(hash@);
            let config = HashConfig {
                variant: HashVariant::Argon2i,
                version: HashVersion::Version13,
                mem_cost: 15360,
                time_cost: 10,
                lanes: 4,
                thread_mode: HashThreads::Parallel,
                hash_length: 128,
            };
            assert(encoded_with(encode_utf8(password@), encode_utf8(salt), config) == Some(hash@));
        }
    }
    match verify_encoded(hash, password.as_bytes()) {
        Ok(b) => Ok(b),
        Err(e) => Err(Error::from_parent(ErrorSource::PasswordHash(e))),
    }
}

} // verus!

verus! {

/// Whether `hash` is a hash that `new` may return for `password`.
pub open spec fn registered_hash(password: Seq<char>, hash: Seq<char>) -> bool {
    exists|salt: Seq<char>| is_password_salt(salt) && #[trigger] password_digest(password, salt) == Some(hash)
}

/// Whether `verify` promises that `password` matches `hash`.
pub open spec fn verifies(password: Seq<char>, hash: Seq<char>) -> bool {
    exists|salt: Seq<char>| #[trigger] password_digest(password, salt) == Some(hash)
}

/// Law: a hash that `new` made of a password verifies against that
/// password (the contract of `verify` then promises `Ok(true)`, and that of
/// `authenticate` the user).
pub proof fn lemma_registered_password_verifies(password: Seq<char>, hash: Seq<char>)
    requires
        registered_hash(password, hash),
    ensures
        verifies(password, hash),
{
    let salt = choose|salt: Seq<char>| is_password_salt(salt) && #[trigger] password_digest(password, salt) == Some(hash);
    assert(password_digest(password, salt) == Some(hash));
}

/// The head of an encoded hash under the parameters of `password_config`.
pub(crate) proof fn lemma_password_config_header(config: HashConfig)
    requires
        config.variant == HashVariant::Argon2i,
        config.version == HashVersion::Version13,
        config.mem_cost == 15360,
        config.time_cost == 10,
        config.lanes == 4,
    ensures
        encoded_header(config) == password_hash_header(),
{
    assert(decimal(1) =~= seq!['1']);
    assert(decimal(4) =~= seq!['4']);
    assert(decimal(10) =~= seq!['1', '0']);
    assert(decimal(19) =~= seq!['1', '9']);
    assert(decimal(15) =~= seq!['1', '5']);
    assert(decimal(153) =~= seq!['1', '5', '3']);
    assert(decimal(1536) =~= seq!['1', '5', '3', '6']);
    assert(decimal(15360) =~= seq!['1', '5', '3', '6', '0']);
    assert(encoded_header(config) =~= password_hash_header());
}

} // verus!
