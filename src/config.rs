//! Configuration of a space: the record to publish and the admin settings.
use vstd::prelude::*;
use crate::credential::ApiKey;
use crate::status::Status;
use vstd::string::StringExecFns;

verus! {

/// Relies on rand::random: a value drawn from the thread-local generator.
/// Nothing is promised of which value comes.
pub assume_specification<T>[ rand::random::<T> ]() -> (r: T)
    where
        rand::distributions::Standard: rand::distributions::Distribution<T>,
;

/// The lowercase hexadecimal digit of `d`, for `d < 16`.
pub open spec fn hex_digit(d: nat) -> char {
    seq!['0', '1', '2', '3', '4', '5', '6', '7', '8', '9', 'a', 'b', 'c', 'd', 'e', 'f'][d as int]
}

/// The lowercase hexadecimal digits of `n`, without leading zeros ("0" for 0).
pub open spec fn hex_digits(n: nat) -> Seq<char>
    decreases n,
{
    if n < 16 {
        seq![hex_digit(n)]
    } else {
        hex_digits(n / 16).push(hex_digit(n % 16))
    }
}

/// `n` in lowercase hexadecimal, right-aligned in a field of 16 characters
/// filled with spaces.
pub open spec fn padded_hex(n: u64) -> Seq<char> {
    let digits = hex_digits(n as nat);
    Seq::new((16 - digits.len()) as nat, |i: int| ' ') + digits
}

/// Relies on std's `format!` with the `{:16x}` specifier: lowercase hex,
/// right-aligned in 16 columns, padded with spaces.
#[verifier::external_body]
fn format_hex_word(n: u64) -> (r: String)
    ensures
        r@ == padded_hex(n),
{
    format!("{:16x}", n)
}

/// The credential made from two random words: each in hex, right-aligned in
/// 16 columns.
pub open spec fn key_of_words(a: u64, b: u64) -> Seq<char> {
    padded_hex(a) + padded_hex(b)
}

/// Builds the credential that stands for the words `a` and `b`.
pub fn key_from_words(a: u64, b: u64) -> (r: ApiKey)
    ensures
        r@ == key_of_words(a, b),
{
    let first = format_hex_word(a);
    let second = format_hex_word(b);
    let text = first.concat(second.as_str());
    ApiKey::new(text.as_str())
}

/// Whether the admin endpoints exist, and the credential they demand.
pub struct AdminConfig {
    pub api_key: Option<ApiKey>,
    pub enabled: bool,
}

/// Everything the server is started from.
pub struct SpaceConfig {
    pub publish: Status,
    pub admin: AdminConfig,
}

impl AdminConfig {
    /// Whether admin mode is on without a configured credential, so that one
    /// must be generated before the server starts.
    pub fn needs_generated_key(&self) -> (r: bool)
        ensures
            r == (self.enabled && self.api_key is None),
    {
        self.enabled && self.api_key.is_none()
    }
}

impl SpaceConfig {
    /// Fills in the credential from the words `a` and `b` where one must be
    /// generated; leaves the configuration as it is otherwise.
    pub fn with_key_words(self, a: u64, b: u64) -> (r: SpaceConfig)
        ensures
            r.publish == self.publish,
            r.admin.enabled == self.admin.enabled,
            self.admin.enabled && self.admin.api_key is None ==> key_view(r.admin.api_key) == Some(
                key_of_words(a, b),
            ),
            !(self.admin.enabled && self.admin.api_key is None) ==> key_view(r.admin.api_key)
                == key_view(self.admin.api_key),
    {
        if self.admin.needs_generated_key() {
            let SpaceConfig { publish, admin } = self;
            SpaceConfig {
                publish,
                admin: AdminConfig { api_key: Some(key_from_words(a, b)), enabled: admin.enabled },
            }
        } else {
            self
        }
    }

    /// Makes the configuration ready to serve: where admin mode is on without
    /// a credential, a random one of 32 characters is generated.
    pub fn complete(self) -> (r: SpaceConfig)
        ensures
            r.publish == self.publish,
            r.admin.enabled == self.admin.enabled,
            self.admin.enabled && self.admin.api_key is None ==> exists|a: u64, b: u64|
                key_view(r.admin.api_key) == Some(key_of_words(a, b)),
            !(self.admin.enabled && self.admin.api_key is None) ==> key_view(r.admin.api_key)
                == key_view(self.admin.api_key),
    {
        let a: u64 = rand::random::<u64>();
        let b: u64 = rand::random::<u64>();
        self.with_key_words(a, b)
    }
}

/// The characters of an optional credential.
pub open spec fn key_view(k: Option<ApiKey>) -> Option<Seq<char>> {
    match k {
        Some(k) => Some(k@),
        None => None,
    }
}

} // verus!
