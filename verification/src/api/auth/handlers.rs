use vstd::prelude::*;
use vstd::utf8::*;

use crate::api::auth::payloads::RegisterPayload;
use crate::features::auth::password_hash::{
    hash_encoded, is_password_salt, lemma_password_config_header, password_config, password_digest,
    password_hash_header,
};
use crate::features::auth::random_string;
use crate::text::append_str;

verus! {

/// The body of the answer to the early registration endpoint: the password
/// of the request hashed with a fresh random salt of 128 alphanumeric
/// characters, followed by that salt.
pub fn register(payload: &RegisterPayload) -> (res: String)
    requires
        encode_utf8(payload.password@).len() <= 0xFFFF_FFFF,
    ensures
        exists|salt: Seq<char>|
            is_password_salt(salt) && #[trigger] password_digest(payload.password@, salt) is Some
                && res@ == password_digest(payload.password@, salt)->0 + salt,
        password_hash_header().is_prefix_of(res@),
{
    let salt = random_string::new(128);
    let config = password_config();
    proof {
        assert(is_ascii_chars(salt@));
        is_ascii_chars_encode_utf8(salt@);
    }
    let hash = hash_encoded(payload.password.as_str().as_bytes(), salt.as_str().as_bytes(), &config);
    match hash {
        Ok(hash) => {
            let ghost h = hash@;
            proof {
                lemma_password_config_header(config);
            }
            let mut body = hash;
            append_str(&mut body, salt.as_str());
            assert(password_digest(payload.password@, salt@) == Some(h));
            body
        },
        Err(_) => {
            assert(false);
            String::new()
        },
    }
}

/// The body of the answer to the early login endpoint.
pub fn login(payload: &RegisterPayload) -> (res: &'static str)
    ensures
        res@ == "login"@,
{
    "login"
}

} // verus!
