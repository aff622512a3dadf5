//! The stored form of the API key: sealed by the system's data protection,
//! then written as base64 text; and the configuration that holds it.
use vstd::prelude::*;
use vstd::utf8::{encode_utf8, encode_utf8_decode_utf8, encode_utf8_valid_utf8};
use crate::codec::{base64_decoded, base64_encoded, base64_len, decode_standard, encode_standard};
use crate::text::{string_from_utf8, text_of, utf8_text};

verus! {

/// The bytes of an optional byte vector.
pub open spec fn bytes_of(v: Option<Vec<u8>>) -> Option<Seq<u8>> {
    match v {
        Some(b) => Some(b@),
        None => None,
    }
}

/// The stored text of `stored` holds the key sealed into `sealed`: it is the
/// base64 text of the sealed bytes, of their padded length, and it decodes
/// back to them.
pub open spec fn holds_sealed(sealed: Seq<u8>, stored: Seq<char>) -> bool {
    &&& stored == base64_encoded(sealed)
    &&& stored.len() == base64_len(sealed.len())
    &&& base64_decoded(stored) == Some(sealed)
}

/// What encrypting `plain` gives, where the system's protection returned
/// `sealed` for its UTF-8 bytes.
pub open spec fn stored_form(plain: Seq<char>, sealed: Option<Seq<u8>>) -> Option<Seq<char>> {
    if plain.len() == 0 {
        Some(Seq::empty())
    } else {
        match sealed {
            Some(b) => Some(base64_encoded(b)),
            None => None,
        }
    }
}

/// What decrypting `stored` gives, where the system's unprotection returned
/// `opened` for its base64-decoded bytes.
pub open spec fn read_back(stored: Seq<char>, opened: Option<Seq<u8>>) -> Option<Seq<char>> {
    if stored.len() == 0 {
        Some(Seq::empty())
    } else if base64_decoded(stored) is None {
        None
    } else {
        match opened {
            Some(b) => utf8_text(b),
            None => None,
        }
    }
}

/// `got` is a possible result of encrypting `plain` with `protect`.
pub open spec fn seals<F: Fn(Vec<u8>) -> Option<Vec<u8>>>(
    protect: F,
    plain: Seq<char>,
    got: Option<Seq<char>>,
) -> bool {
    if plain.len() == 0 {
        got == Some(Seq::<char>::empty())
    } else {
        exists|arg: Vec<u8>, out: Option<Vec<u8>>|
            #![trigger protect.ensures((arg,), out)]
            {
                &&& arg@ == encode_utf8(plain)
                &&& protect.ensures((arg,), out)
                &&& got == stored_form(plain, bytes_of(out))
                &&& (out matches Some(b) ==> holds_sealed(b@, base64_encoded(b@)))
            }
    }
}

/// `got` is a possible result of decrypting `stored` with `unprotect`.
pub open spec fn unseals<F: Fn(Vec<u8>) -> Option<Vec<u8>>>(
    unprotect: F,
    stored: Seq<char>,
    got: Option<Seq<char>>,
) -> bool {
    if stored.len() == 0 {
        got == Some(Seq::<char>::empty())
    } else {
        match base64_decoded(stored) {
            None => got is None,
            Some(decoded) => exists|arg: Vec<u8>, out: Option<Vec<u8>>|
                #![trigger unprotect.ensures((arg,), out)]
                {
                    &&& arg@ == decoded
                    &&& unprotect.ensures((arg,), out)
                    &&& got == read_back(stored, bytes_of(out))
                },
        }
    }
}

/// A byte string no longer than `isize::MAX` has a padded base64 length that
/// fits in `usize`.
proof fn lemma_base64_len_fits(n: nat)
    requires
        n <= isize::MAX,
    ensures
        base64_len(n) <= usize::MAX,
{
    assert(usize::MAX >= 2 * (isize::MAX as int) + 1) by {
        assert(isize::MAX == 0x7fff_ffff || isize::MAX == 0x7fff_ffff_ffff_ffff);
    }
    assert(4 * ((n + 2) / 3) <= 2 * (n as int) + 2) by (nonlinear_arith)
        requires
            n >= 0,
    ;
    if n == isize::MAX as nat {
        assert(4 * ((n + 2) / 3) <= 2 * (n as int) + 1) by (nonlinear_arith)
            requires
                n >= 0x7fff_ffff,
        ;
    }
}

/// Encrypts an API key for storage: the empty key is stored as the empty
/// text; any other key's UTF-8 bytes are handed to `protect` (the system's
/// data protection) and what it returns is written as base64 text, or `None`
/// where it failed.
pub fn dpapi_encrypt<F: Fn(Vec<u8>) -> Option<Vec<u8>>>(plaintext: &str, protect: F) -> (res:
    Option<String>)
    requires
        forall|arg: Vec<u8>| protect.requires((arg,)),
        forall|arg: Vec<u8>, out: Option<Vec<u8>>|
            #![trigger protect.ensures((arg,), out)]
            protect.ensures((arg,), out) && out is Some ==> out->0@.len() <= isize::MAX,
    ensures
        seals(protect, plaintext@, text_of(res)),
{
    if plaintext.is_empty() {
        return Some(String::new());
    }
    let bytes = vstd::slice::slice_to_vec(plaintext.as_bytes());
    let ghost arg = bytes;
    let sealed = protect(bytes);
    match sealed {
        None => None,
        Some(b) => {
            proof {
                lemma_base64_len_fits(b@.len());
            }
            let text = encode_standard(b.as_slice());
            assert(protect.ensures((arg,), Some(b)));
            Some(text)
        },
    }
}

/// What follows the base64 decoding of a stored key: bytes that did not
/// decode give `None`; decoded bytes are handed to `unprotect` (the system's
/// data protection), and what it opens is read as UTF-8 text, `None` where
/// it failed or the bytes are not UTF-8.
pub fn open_decoded<F: Fn(Vec<u8>) -> Option<Vec<u8>>>(decoded: Option<Vec<u8>>, unprotect: F) -> (res:
    Option<String>)
    requires
        forall|arg: Vec<u8>| unprotect.requires((arg,)),
    ensures
        match decoded {
            None => res is None,
            Some(d) => exists|out: Option<Vec<u8>>|
                #![trigger unprotect.ensures((d,), out)]
                unprotect.ensures((d,), out) && text_of(res) == match out {
                    Some(b) => utf8_text(b@),
                    None => None,
                },
        },
{
    match decoded {
        None => None,
        Some(d) => {
            let ghost arg = d;
            let opened = unprotect(d);
            assert(unprotect.ensures((arg,), opened));
            match opened {
                None => None,
                Some(b) => string_from_utf8(b),
            }
        },
    }
}

/// Decrypts a stored API key: the empty text is the empty key; other text
/// is base64-decoded, opened by `unprotect` and read as UTF-8, giving `None`
/// where any of these fails.
pub fn dpapi_decrypt<F: Fn(Vec<u8>) -> Option<Vec<u8>>>(encrypted_b64: &str, unprotect: F) -> (res:
    Option<String>)
    requires
        forall|arg: Vec<u8>| unprotect.requires((arg,)),
    ensures
        unseals(unprotect, encrypted_b64@, text_of(res)),
{
    if encrypted_b64.is_empty() {
        return Some(String::new());
    }
    let decoded = decode_standard(encrypted_b64);
    open_decoded(decoded, unprotect)
}

/// The saved configuration: the API key in its stored form, and a field
/// in which earlier versions kept the key as plain text.
pub struct AppConfig {
    pub encrypted_api_key: String,
    pub api_key: String,
}

/// The text of an optional result, the empty text where there is none.
pub open spec fn or_empty(got: Option<Seq<char>>) -> Seq<char> {
    match got {
        Some(t) => t,
        None => Seq::empty(),
    }
}

/// The key that a configuration yields: the decrypted stored key where one is
/// stored (the empty key where decryption failed), else the plain-text key.
pub open spec fn key_to_use(
    encrypted: Seq<char>,
    plain: Seq<char>,
    decrypted: Option<Seq<char>>,
) -> Seq<char> {
    if encrypted.len() > 0 {
        or_empty(decrypted)
    } else {
        plain
    }
}

/// How the key is stored: sealed by the system's data protection and
/// written as base64 (where the system has one), or as it is.
#[derive(Clone, Copy, Debug, PartialEq, Eq, Structural)]
pub enum KeyForm {
    Sealed,
    Plain,
}

/// The stored form of a key where the system has no data protection: the
/// key as it is.
pub fn plain_encrypt(plaintext: &str) -> (res: Option<String>)
    ensures
        text_of(res) == Some(plaintext@),
{
    Some(plaintext.to_owned())
}

/// Reading a key stored where the system has no data protection: the stored
/// text as it is.
pub fn plain_decrypt(stored: &str) -> (res: Option<String>)
    ensures
        text_of(res) == Some(stored@),
{
    Some(stored.to_owned())
}

/// `got` is a possible result of encrypting `plain` in the form `form`.
pub open spec fn encrypts<F: Fn(Vec<u8>) -> Option<Vec<u8>>>(
    form: KeyForm,
    protect: F,
    plain: Seq<char>,
    got: Option<Seq<char>>,
) -> bool {
    match form {
        KeyForm::Sealed => seals(protect, plain, got),
        KeyForm::Plain => got == Some(plain),
    }
}

/// `got` is a possible result of decrypting `stored` in the form `form`.
pub open spec fn decrypts<F: Fn(Vec<u8>) -> Option<Vec<u8>>>(
    form: KeyForm,
    unprotect: F,
    stored: Seq<char>,
    got: Option<Seq<char>>,
) -> bool {
    match form {
        KeyForm::Sealed => unseals(unprotect, stored, got),
        KeyForm::Plain => got == Some(stored),
    }
}

/// Picks the API key out of a loaded configuration whose key is stored in
/// the form `form`. The second component says whether the key came from the
/// plain-text field, in which case it is to be saved again in its stored
/// form. `unprotect` is called only for the sealed form.
pub fn resolve_api_key<F: Fn(Vec<u8>) -> Option<Vec<u8>>>(
    config: &AppConfig,
    form: KeyForm,
    unprotect: F,
) -> (res: (String, bool))
    requires
        forall|arg: Vec<u8>| unprotect.requires((arg,)),
    ensures
        config.encrypted_api_key@.len() > 0 ==> {
            &&& !res.1
            &&& exists|got: Option<Seq<char>>|
                #![trigger decrypts(form, unprotect, config.encrypted_api_key@, got)]
                decrypts(form, unprotect, config.encrypted_api_key@, got) && res.0@ == key_to_use(
                    config.encrypted_api_key@,
                    config.api_key@,
                    got,
                )
        },
        config.encrypted_api_key@.len() == 0 ==> {
            &&& res.0@ == config.api_key@
            &&& res.1 == (config.api_key@.len() > 0)
        },
{
    if !config.encrypted_api_key.as_str().is_empty() {
        let key = match form {
            KeyForm::Sealed => dpapi_decrypt(config.encrypted_api_key.as_str(), unprotect),
            KeyForm::Plain => plain_decrypt(config.encrypted_api_key.as_str()),
        };
        let ghost got = text_of(key);
        assert(decrypts(form, unprotect, config.encrypted_api_key@, got));
        let key = match key {
            Some(k) => k,
            None => String::new(),
        };
        return (key, false);
    }
    if !config.api_key.as_str().is_empty() {
        return (config.api_key.clone(), true);
    }
    (String::new(), false)
}

/// The configuration that saves `api_key` in the form `form`: its stored
/// form (the empty text where encryption failed), and the plain-text field
/// cleared. `protect` is called only for the sealed form.
pub fn config_for_key<F: Fn(Vec<u8>) -> Option<Vec<u8>>>(
    api_key: &str,
    form: KeyForm,
    protect: F,
) -> (res: AppConfig)
    requires
        forall|arg: Vec<u8>| protect.requires((arg,)),
        forall|arg: Vec<u8>, out: Option<Vec<u8>>|
            #![trigger protect.ensures((arg,), out)]
            protect.ensures((arg,), out) && out is Some ==> out->0@.len() <= isize::MAX,
    ensures
        res.api_key@ == Seq::<char>::empty(),
        exists|got: Option<Seq<char>>|
            #![trigger encrypts(form, protect, api_key@, got)]
            encrypts(form, protect, api_key@, got) && res.encrypted_api_key@ == or_empty(got),
{
    let encrypted = match form {
        KeyForm::Sealed => dpapi_encrypt(api_key, protect),
        KeyForm::Plain => plain_encrypt(api_key),
    };
    let ghost got = text_of(encrypted);
    assert(encrypts(form, protect, api_key@, got));
    let encrypted = match encrypted {
        Some(e) => e,
        None => String::new(),
    };
    AppConfig { encrypted_api_key: encrypted, api_key: String::new() }
}

/// In the plain form every key, the empty one too, is stored as it is, reads
/// back as it is, and is the key that the saved configuration yields on the
/// next start, with no migration.
pub proof fn lemma_plain_key_loads_back(key: Seq<char>)
    ensures
        key_to_use(key, Seq::empty(), Some(key)) == key,
{
}

/// A non-empty key reads back unchanged from its stored form: where the
/// system's protection sealed its UTF-8 bytes into a non-empty `sealed`, and
/// the unprotection opens `sealed` back into those bytes, decrypting the
/// stored text gives the key.
pub proof fn lemma_stored_key_reads_back(key: Seq<char>, sealed: Seq<u8>)
    requires
        key.len() > 0,
        sealed.len() > 0,
        holds_sealed(sealed, base64_encoded(sealed)),
    ensures
        stored_form(key, Some(sealed)) == Some(base64_encoded(sealed)),
        read_back(base64_encoded(sealed), Some(encode_utf8(key))) == Some(key),
{
    encode_utf8_valid_utf8(key);
    encode_utf8_decode_utf8(key);
}

/// The empty key is stored as the empty text and reads back as the empty key,
/// whatever the system's protection does.
pub proof fn lemma_empty_key_reads_back(sealed: Option<Seq<u8>>, opened: Option<Seq<u8>>)
    ensures
        stored_form(Seq::empty(), sealed) == Some(Seq::<char>::empty()),
        read_back(Seq::empty(), opened) == Some(Seq::<char>::empty()),
{
}

/// A key saved in a configuration is the key that the configuration yields
/// on the next start, with no migration, where the system's unprotection
/// opens what its protection sealed.
pub proof fn lemma_saved_key_loads_back(key: Seq<char>, sealed: Seq<u8>)
    requires
        key.len() > 0,
        sealed.len() > 0,
        holds_sealed(sealed, base64_encoded(sealed)),
    ensures
        base64_encoded(sealed).len() > 0,
        key_to_use(
            base64_encoded(sealed),
            Seq::empty(),
            read_back(base64_encoded(sealed), Some(encode_utf8(key))),
        ) == key,
{
    lemma_stored_key_reads_back(key, sealed);
    assert(base64_len(sealed.len()) > 0);
}

/// The key a configuration yields: a stored key wins over the plain-text
/// field and is what decryption gave (the empty key where it failed); with no
/// stored key, the plain-text field is the key.
pub proof fn lemma_key_choice(
    encrypted: Seq<char>,
    plain: Seq<char>,
    decrypted: Option<Seq<char>>,
)
    ensures
        encrypted.len() > 0 ==> key_to_use(encrypted, plain, decrypted) == match decrypted {
            Some(k) => k,
            None => Seq::<char>::empty(),
        },
        encrypted.len() == 0 ==> key_to_use(encrypted, plain, decrypted) == plain,
{
}

/// In the plain form, whatever the protection calls, a key saved and then
/// loaded comes back unchanged: the stored text is the key, reading it back
/// gives the stored text, and the configuration yields the key.
pub proof fn lemma_plain_form_round_trip<F: Fn(Vec<u8>) -> Option<Vec<u8>>>(
    protect: F,
    unprotect: F,
    key: Seq<char>,
    stored: Option<Seq<char>>,
    read: Option<Seq<char>>,
)
    requires
        encrypts(KeyForm::Plain, protect, key, stored),
        decrypts(KeyForm::Plain, unprotect, or_empty(stored), read),
    ensures
        stored == Some(key),
        read == Some(key),
        key_to_use(or_empty(stored), Seq::empty(), read) == key,
{
}

} // verus!
