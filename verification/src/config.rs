//! The gateway's settings, and the check that is made of them at startup.

use vstd::prelude::*;
use vstd::string::StringExecFns;

verus! {

/// The settings of a password generator: how long the password is, which
/// kinds of characters it draws from, and whether every kind must occur.
#[derive(Clone, Copy, Debug, PartialEq, Eq, Structural)]
pub struct PasswordRules {
    pub length: usize,
    pub numbers: bool,
    pub lowercase_letters: bool,
    pub uppercase_letters: bool,
    pub symbols: bool,
    pub spaces: bool,
    pub exclude_similar_characters: bool,
    pub strict: bool,
}

/// Whether `c` is an ASCII digit.
pub open spec fn is_number(c: char) -> bool {
    '0' <= c <= '9'
}

/// Whether `c` is an ASCII lowercase letter.
pub open spec fn is_lowercase(c: char) -> bool {
    'a' <= c <= 'z'
}

/// Whether `c` is an ASCII uppercase letter.
pub open spec fn is_uppercase(c: char) -> bool {
    'A' <= c <= 'Z'
}

/// Whether `c` is a printable ASCII character that is neither a digit, nor a
/// letter, nor the space.
pub open spec fn is_symbol(c: char) -> bool {
    '!' <= c <= '/' || ':' <= c <= '@' || '[' <= c <= '`' || '{' <= c <= '~'
}

impl PasswordRules {
    /// The number of kinds of characters that are switched on.
    pub open spec fn kinds(self) -> nat {
        let n: nat = if self.numbers { 1 } else { 0 };
        let l: nat = if self.lowercase_letters { 1 } else { 0 };
        let u: nat = if self.uppercase_letters { 1 } else { 0 };
        let s: nat = if self.symbols { 1 } else { 0 };
        let b: nat = if self.spaces { 1 } else { 0 };
        n + l + u + s + b
    }

    /// Whether a password can be made at all: it has a length, at least one
    /// kind of character is switched on, and under strict rules it is long
    /// enough to hold one character of each kind.
    pub open spec fn satisfiable(self) -> bool {
        &&& self.length > 0
        &&& self.kinds() > 0
        &&& self.strict ==> self.length >= self.kinds()
    }

    /// Whether a password may hold `c`.
    pub open spec fn admits(self, c: char) -> bool {
        ||| self.numbers && is_number(c)
        ||| self.lowercase_letters && is_lowercase(c)
        ||| self.uppercase_letters && is_uppercase(c)
        ||| self.symbols && is_symbol(c)
        ||| self.spaces && c == ' '
    }

    /// Whether `password` is one that these rules allow: of the given length,
    /// of admitted characters only, and under strict rules with every kind
    /// that is switched on.
    pub open spec fn allows(self, password: Seq<char>) -> bool {
        &&& password.len() == self.length
        &&& forall|i: int| 0 <= i < password.len() ==> self.admits(#[trigger] password[i])
        &&& self.strict && self.numbers ==> exists|i: int|
            0 <= i < password.len() && is_number(#[trigger] password[i])
        &&& self.strict && self.lowercase_letters ==> exists|i: int|
            0 <= i < password.len() && is_lowercase(#[trigger] password[i])
        &&& self.strict && self.uppercase_letters ==> exists|i: int|
            0 <= i < password.len() && is_uppercase(#[trigger] password[i])
        &&& self.strict && self.symbols ==> exists|i: int|
            0 <= i < password.len() && is_symbol(#[trigger] password[i])
        &&& self.strict && self.spaces ==> exists|i: int|
            0 <= i < password.len() && #[trigger] password[i] == ' '
    }
}

/// Draws one random password with `passwords::PasswordGenerator::generate_one`.
///
/// Trusted: the generator refuses exactly the rules that are not
/// [`PasswordRules::satisfiable`], and a password it returns is one that the
/// rules allow. Which password it returns is left open. A length beyond the
/// largest allocation is kept out: the generator reserves the password's
/// room before it draws.
#[verifier::external_body]
fn generate_password(rules: &PasswordRules) -> (r: Result<String, &'static str>)
    requires
        rules.length <= isize::MAX,
    ensures
        r is Ok <==> rules.satisfiable(),
        r matches Ok(password) ==> rules.allows(password@),
{
    passwords::PasswordGenerator {
        length: rules.length,
        numbers: rules.numbers,
        lowercase_letters: rules.lowercase_letters,
        uppercase_letters: rules.uppercase_letters,
        symbols: rules.symbols,
        spaces: rules.spaces,
        exclude_similar_characters: rules.exclude_similar_characters,
        strict: rules.strict,
    }.generate_one()
}

/// Draws a random password that `rules` allow, or `None` where no password
/// can be made under them.
pub fn random_password(rules: &PasswordRules) -> (r: Option<String>)
    requires
        rules.length <= isize::MAX,
    ensures
        r is Some <==> rules.satisfiable(),
        r matches Some(password) ==> rules.allows(password@),
{
    match generate_password(rules) {
        Ok(password) => Some(password),
        Err(_) => None,
    }
}

/// The rules of the password that a new configuration is given: 24
/// characters, with at least one digit, one lowercase letter, one uppercase
/// letter and one symbol, and no space.
pub open spec fn default_password_rules() -> PasswordRules {
    PasswordRules {
        length: 24,
        numbers: true,
        lowercase_letters: true,
        uppercase_letters: true,
        symbols: true,
        spaces: false,
        exclude_similar_characters: false,
        strict: true,
    }
}

/// The port that a new configuration listens on.
pub const DEFAULT_PORT: u16 = 4000;

/// Whether `key` is the text that stands in a new configuration where the
/// upstream key belongs.
pub open spec fn is_placeholder_key(key: Seq<char>) -> bool {
    key == "arbnco_auth_key_goes_here"@
}

/// The settings of the gateway. They are read once and never changed.
#[derive(Debug)]
pub struct ProxyConfig {
    pub port: u16,
    pub authentication_key: String,
    pub site_id: String,
    pub http_auth_username: String,
    pub http_auth_password: String,
}

impl Default for ProxyConfig {
    /// The configuration that is written where none exists: the placeholder
    /// for the upstream key and for the site, the user `openhab`, and a
    /// freshly drawn password.
    fn default() -> (config: Self)
        ensures
            config.port == DEFAULT_PORT,
            is_placeholder_key(config.authentication_key@),
            config.site_id@ == "site_id_goes_here"@,
            config.http_auth_username@ == "openhab"@,
            default_password_rules().allows(config.http_auth_password@),
    {
        let rules = PasswordRules {
            length: 24,
            numbers: true,
            lowercase_letters: true,
            uppercase_letters: true,
            symbols: true,
            spaces: false,
            exclude_similar_characters: false,
            strict: true,
        };
        let password = match random_password(&rules) {
            Some(password) => password,
            None => unreached(),
        };
        ProxyConfig {
            port: DEFAULT_PORT,
            authentication_key: String::from_str("arbnco_auth_key_goes_here"),
            site_id: String::from_str("site_id_goes_here"),
            http_auth_username: String::from_str("openhab"),
            http_auth_password: password,
        }
    }
}

/// Why the gateway does not start.
#[derive(Debug)]
pub enum ConfigError {
    /// The configuration could not be read; the text says why.
    Unreadable(String),
    /// The upstream key is still the placeholder.
    PlaceholderKey,
}

/// The exit status of a gateway that does not start.
pub const EXIT_FAILURE: i32 = 1;

impl ConfigError {
    /// What the operator is told.
    pub fn message(&self) -> (text: String)
        ensures
            text@ == match self {
                ConfigError::Unreadable(detail) => "Could not load the configuration file (config.toml): "@
                    + detail@,
                ConfigError::PlaceholderKey => "Please add the authentication (API) key in the configuration file (config.toml), and run again."@,
            },
    {
        match self {
            ConfigError::Unreadable(detail) => {
                let mut text = String::from_str(
                    "Could not load the configuration file (config.toml): ",
                );
                text.append(detail.as_str());
                text
            },
            ConfigError::PlaceholderKey => String::from_str(
                "Please add the authentication (API) key in the configuration file (config.toml), and run again.",
            ),
        }
    }
}

impl ProxyConfig {
    /// The check made before the listener is bound: the gateway starts only
    /// with an upstream key that is not the placeholder.
    pub fn check(&self) -> (r: Result<(), ConfigError>)
        ensures
            is_placeholder_key(self.authentication_key@) <==> r is Err,
            r is Err ==> r == Err::<(), ConfigError>(ConfigError::PlaceholderKey),
    {
        if *self.authentication_key.as_str() == *"arbnco_auth_key_goes_here" {
            Err(ConfigError::PlaceholderKey)
        } else {
            Ok(())
        }
    }
}

} // verus!
