//! Decisions of the hardware-token bridge. Talking to the token itself is
//! left to the caller; what is decided before and after each exchange lives
//! here.

pub mod device;
pub mod markers;
pub mod padding;
pub mod standalone;

pub use device::DeviceReport;
pub use device::DeviceState;
pub use device::YubiKeyDevice;

use vstd::prelude::*;
use vstd::string::StringExecFns;
use vstd::utf8::encode_utf8;
use crate::codec::base64_bytes;
use crate::codec::base64_encode;
use crate::codec::can_base64_encode;
use crate::encrypt::rsa::PublicKey;
use crate::codec::base64_encodable;
use crate::encrypt::rsa_calls::decrypts_to;
use crate::encrypt::rsa_calls::fits_modulus;
use crate::encrypt::rsa_calls::rsa_modulus_len;
use crate::encrypt::rsa_calls::rsa_public_pem;
use crate::error::Error;
use crate::error::ProtocolFault;
use crate::error::Result;

verus! {

/// Asymmetric algorithm of the key held in a PIV slot.
#[derive(Clone, Copy, Debug, PartialEq, Eq, Structural)]
pub enum AlgorithmId {
    /// RSA with a 1024-bit modulus.
    Rsa1024,
    /// RSA with a 2048-bit modulus.
    Rsa2048,
    /// ECC on NIST P-256.
    EccP256,
    /// ECC on NIST P-384.
    EccP384,
}

/// The character of one decimal digit.
pub open spec fn digit_char(digit: nat) -> char {
    if digit == 0 {
        '0'
    } else if digit == 1 {
        '1'
    } else if digit == 2 {
        '2'
    } else if digit == 3 {
        '3'
    } else if digit == 4 {
        '4'
    } else if digit == 5 {
        '5'
    } else if digit == 6 {
        '6'
    } else if digit == 7 {
        '7'
    } else if digit == 8 {
        '8'
    } else {
        '9'
    }
}

/// A number in decimal, without leading zeros.
pub open spec fn decimal_text(n: nat) -> Seq<char>
    decreases n,
{
    if n < 10 {
        seq![digit_char(n)]
    } else {
        decimal_text(n / 10).push(digit_char(n % 10))
    }
}

/// One decimal digit as text.
fn digit_text(digit: u32) -> (text: &'static str)
    requires
        digit < 10,
    ensures
        text@ == seq![digit_char(digit as nat)],
{
    proof {
        reveal_strlit("0");
        reveal_strlit("1");
        reveal_strlit("2");
        reveal_strlit("3");
        reveal_strlit("4");
        reveal_strlit("5");
        reveal_strlit("6");
        reveal_strlit("7");
        reveal_strlit("8");
        reveal_strlit("9");
    }
    let text = if digit == 0 {
        "0"
    } else if digit == 1 {
        "1"
    } else if digit == 2 {
        "2"
    } else if digit == 3 {
        "3"
    } else if digit == 4 {
        "4"
    } else if digit == 5 {
        "5"
    } else if digit == 6 {
        "6"
    } else if digit == 7 {
        "7"
    } else if digit == 8 {
        "8"
    } else {
        "9"
    };
    assert(text@ =~= seq![digit_char(digit as nat)]);
    text
}

/// Writes a number in decimal.
pub fn decimal(n: u32) -> (text: String)
    ensures
        text@ == decimal_text(n as nat),
    decreases n,
{
    if n < 10 {
        String::from_str(digit_text(n))
    } else {
        let mut text = decimal(n / 10);
        text.append(digit_text(n % 10));
        assert(text@ =~= decimal_text((n / 10) as nat).push(digit_char((n % 10) as nat)));
        text
    }
}

/// What is kept of one hardware token.
#[derive(Clone, Debug)]
pub struct YubiKeyInfo {
    pub serial: Option<u32>,
    pub name: String,
    pub version: Option<String>,
    pub is_fips: bool,
    pub form_factor: String,
    pub pub_key: Option<String>,
}

impl YubiKeyInfo {
    /// A record with no serial number, no version and no key.
    pub fn default() -> (info: Self)
        ensures
            info.serial is None,
            info.name@ == "YubiKey"@,
            info.version is None,
            !info.is_fips,
            info.form_factor@ == "YubiKey"@,
            info.pub_key is None,
    {
        Self {
            serial: None,
            name: String::from_str("YubiKey"),
            version: None,
            is_fips: false,
            form_factor: String::from_str("YubiKey"),
            pub_key: None,
        }
    }

    /// The record of a present token: named after its serial number.
    pub fn from_yubikey(serial_u32: u32, version: Option<String>, pub_key: Option<String>) -> (info:
        Self)
        ensures
            info.serial == Some(serial_u32),
            info.name@ == "YubiKey "@ + decimal_text(serial_u32 as nat),
            info.version == version,
            !info.is_fips,
            info.form_factor@ == "YubiKey"@,
            info.pub_key == pub_key,
    {
        let mut name = String::from_str("YubiKey ");
        name.append(decimal(serial_u32).as_str());
        Self {
            serial: Some(serial_u32),
            name,
            version,
            is_fips: false,
            form_factor: String::from_str("YubiKey"),
            pub_key,
        }
    }

    /// Binds a public key to the record.
    pub fn set_pub_key(&mut self, pub_key: String)
        ensures
            final(self).pub_key == Some(pub_key),
            final(self).serial == old(self).serial,
            final(self).name == old(self).name,
            final(self).version == old(self).version,
            final(self).is_fips == old(self).is_fips,
            final(self).form_factor == old(self).form_factor,
    {
        self.pub_key = Some(pub_key);
    }
}

/// What enumeration learns of one present token.
#[derive(Clone, Debug)]
pub struct TokenFacts {
    /// Serial number.
    pub serial: u32,
    /// Firmware version, as text.
    pub version: Option<String>,
    /// Public key of the key-management slot as PEM, where its certificate
    /// could be read.
    pub pub_key: Option<String>,
}

/// A copy of an optional text.
fn copy_text(text: &Option<String>) -> (copy: Option<String>)
    ensures
        copy == *text,
{
    match text {
        Some(text) => Some(text.clone()),
        None => None,
    }
}

/// The records of the tokens that enumeration found, one for each and in
/// the same order.
pub fn list_yubikeys(found: &Vec<TokenFacts>) -> (keys: Vec<YubiKeyInfo>)
    ensures
        keys@.len() == found@.len(),
        forall|i: int| 0 <= i < found@.len() ==> is_record_of(#[trigger] keys@[i], found@[i]),
{
    let mut keys: Vec<YubiKeyInfo> = Vec::new();
    let mut i: usize = 0;
    while i < found.len()
        invariant
            i <= found@.len(),
            keys@.len() == i,
            forall|k: int| 0 <= k < i ==> is_record_of(#[trigger] keys@[k], found@[k]),
        decreases found@.len() - i,
    {
        let facts = &found[i];
        keys.push(
            YubiKeyInfo::from_yubikey(
                facts.serial,
                copy_text(&facts.version),
                copy_text(&facts.pub_key),
            ),
        );
        i = i + 1;
    }
    keys
}

/// `info` is the record made of `facts`.
pub open spec fn is_record_of(info: YubiKeyInfo, facts: TokenFacts) -> bool {
    &&& info.serial == Some(facts.serial)
    &&& info.name@ == "YubiKey "@ + decimal_text(facts.serial as nat)
    &&& info.version == facts.version
    &&& !info.is_fips
    &&& info.form_factor@ == "YubiKey"@
    &&& info.pub_key == facts.pub_key
}

/// Opens the token with a given serial number and takes in the token's
/// answer to the PIN.
pub fn setup_yubikey(serial: u32, present: &Vec<DeviceReport>, pin_accepted: bool) -> (r: Result<
    YubiKeyDevice,
>)
    ensures
        match r {
            Ok(device) => pin_accepted && device.serial_view() == serial && device.state_view()
                == DeviceState::Authenticated && exists|at: int| #[trigger]
                device::is_first_with_serial(present@, serial, at),
            Err(Error::DeviceNotFound(_)) => forall|at: int|
                0 <= at < present@.len() ==> present@[at].serial != serial,
            Err(Error::DevicePinFailed(_)) => !pin_accepted && exists|at: int| #[trigger]
                device::is_first_with_serial(present@, serial, at),
            Err(_) => false,
        },
{
    let mut device = YubiKeyDevice::open(serial, present)?;
    device.pin_verified(pin_accepted)?;
    Ok(device)
}

/// Index of the first record with a given serial number.
pub open spec fn is_first_record(list: Seq<YubiKeyInfo>, serial: u32, at: int) -> bool {
    &&& 0 <= at < list.len()
    &&& list[at].serial == Some(serial)
    &&& forall|earlier: int| 0 <= earlier < at ==> list[earlier].serial != Some(serial)
}

/// Finds the record of the token with a given serial number.
pub fn find_yubikey(list: &Vec<YubiKeyInfo>, serial: u32) -> (r: Option<usize>)
    ensures
        match r {
            Some(at) => is_first_record(list@, serial, at as int),
            None => forall|at: int| 0 <= at < list@.len() ==> list@[at].serial != Some(serial),
        },
{
    let mut at: usize = 0;
    while at < list.len()
        invariant
            at <= list@.len(),
            forall|earlier: int| 0 <= earlier < at ==> list@[earlier].serial != Some(serial),
        decreases list@.len() - at,
    {
        let hit = match list[at].serial {
            Some(found) => found == serial,
            None => false,
        };
        if hit {
            return Some(at);
        }
        at = at + 1;
    }
    None
}

/// The key in a public-key PEM takes data of `len` bytes: the data fits
/// under the padding and a ciphertext of the modulus's length can be
/// encoded.
pub open spec fn rsa_takes(public_pem: Seq<char>, len: nat) -> bool {
    fits_modulus(public_pem, len) && base64_encodable(rsa_modulus_len(public_pem))
}

/// Encrypts text to the public key bound to a token's record, with RSA and
/// PKCS#1 v1.5 padding, and hands the ciphertext back as Base64 text. The
/// token itself is not needed.
pub fn encrypt_with_yubikey(info: &YubiKeyInfo, data: &str) -> (r: Result<String>)
    ensures
        match r {
            Ok(text) => info.pub_key matches Some(pem) && rsa_public_pem(pem@) matches Some(kept)
                && base64_bytes(encode_utf8(text@)) matches Some(ciphertext) && decrypts_to(
                kept,
                ciphertext,
                encode_utf8(data@),
            ),
            Err(Error::DeviceProtocol(fault)) => info.pub_key is None && fault
                == ProtocolFault::PublicKeyMissing,
            Err(Error::Encryption(_)) => info.pub_key matches Some(pem) && rsa_public_pem(pem@)
                is None,
            Err(Error::YubiKeyError(_)) => info.pub_key matches Some(pem) && rsa_public_pem(pem@)
                matches Some(kept) && !rsa_takes(kept, encode_utf8(data@).len()),
            Err(_) => false,
        },
{
    let pub_key = match &info.pub_key {
        Some(pub_key) => pub_key,
        None => {
            return Err(Error::DeviceProtocol(ProtocolFault::PublicKeyMissing));
        },
    };
    let encryptor = match PublicKey::from_pem(pub_key.as_str()) {
        Ok(encryptor) => encryptor,
        Err(e) => {
            return Err(Error::from_encrypt(e));
        },
    };
    let encrypted = match encryptor.encrypt(data.as_bytes()) {
        Ok(encrypted) => encrypted,
        Err(e) => {
            return Err(Error::YubiKeyError(e.to_string()));
        },
    };
    if !can_base64_encode(encrypted.len()) {
        return Err(Error::YubiKeyError(String::from_str("Ciphertext too long")));
    }
    Ok(base64_encode(encrypted.as_slice()))
}

} // verus!
