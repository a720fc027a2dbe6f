use vstd::prelude::*;
use vstd::utf8::encode_utf8;

verus! {

/// Largest network name, in bytes of UTF-8.
pub const SSID_CAPACITY: usize = 32;

/// Largest passphrase, in bytes of UTF-8.
pub const PASSPHRASE_CAPACITY: usize = 64;

/// Why a set of station credentials was refused.
#[derive(Debug, Clone, Copy, PartialEq, Eq, Structural)]
pub enum ConfigError {
    SsidTooLong,
    PassphraseTooLong,
}

/// Number of bytes that a string takes in UTF-8.
pub open spec fn utf8_len(s: Seq<char>) -> nat {
    encode_utf8(s).len()
}

/// Station credentials for the access point; fixed once built.
#[derive(Debug, Clone)]
pub struct LinkConfig {
    ssid: String,
    passphrase: String,
}

impl View for LinkConfig {
    type V = (Seq<char>, Seq<char>);

    closed spec fn view(&self) -> (Seq<char>, Seq<char>) {
        (self.ssid@, self.passphrase@)
    }
}

impl LinkConfig {
    /// Both strings fit their capacities.
    pub open spec fn wf(&self) -> bool {
        utf8_len(self@.0) <= SSID_CAPACITY && utf8_len(self@.1) <= PASSPHRASE_CAPACITY
    }

    /// Builds the credentials; a name or a passphrase over its capacity is refused.
    pub fn new(ssid: &str, passphrase: &str) -> (r: Result<LinkConfig, ConfigError>)
        ensures
            utf8_len(ssid@) > SSID_CAPACITY ==> r == Err::<LinkConfig, ConfigError>(
                ConfigError::SsidTooLong,
            ),
            utf8_len(ssid@) <= SSID_CAPACITY && utf8_len(passphrase@) > PASSPHRASE_CAPACITY
                ==> r == Err::<LinkConfig, ConfigError>(ConfigError::PassphraseTooLong),
            utf8_len(ssid@) <= SSID_CAPACITY && utf8_len(passphrase@) <= PASSPHRASE_CAPACITY
                ==> r is Ok,
            r matches Ok(c) ==> c.wf() && c@ == (ssid@, passphrase@),
    {
        if ssid.as_bytes().len() > SSID_CAPACITY {
            return Err(ConfigError::SsidTooLong);
        }
        if passphrase.as_bytes().len() > PASSPHRASE_CAPACITY {
            return Err(ConfigError::PassphraseTooLong);
        }
        Ok(LinkConfig { ssid: ssid.to_owned(), passphrase: passphrase.to_owned() })
    }

    /// The network name.
    pub fn ssid(&self) -> (r: &str)
        ensures
            r@ == self@.0,
    {
        self.ssid.as_str()
    }

    /// The passphrase.
    pub fn passphrase(&self) -> (r: &str)
        ensures
            r@ == self@.1,
    {
        self.passphrase.as_str()
    }
}

} // verus!
