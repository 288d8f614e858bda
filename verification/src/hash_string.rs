use vstd::prelude::*;

use sha2::Digest;

verus! {

/// The SHA-256 digest of a string's bytes. The digest depends on the
/// string's characters alone, so it is left as a name; nothing here claims
/// what it is on given values.
pub uninterp spec fn sha256_of(text: Seq<char>) -> Seq<u8>;

/// Relies on sha2's Sha256: a 32-byte digest of the input bytes, a function
/// of the hashed string alone.
#[verifier::external_body]
fn sha256_digest(text: &str) -> (r: Vec<u8>)
    ensures
        r@ == sha256_of(text@),
        r@.len() == 32,
{
    sha2::Sha256::digest(text.as_bytes()).to_vec()
}

/// The sixteen lower-case hexadecimal digits, in value order.
pub open spec fn hex_digits() -> Seq<char> {
    "0123456789abcdef"@
}

/// Lower-case hexadecimal encoding: each byte becomes two digits, the high
/// nibble first.
pub open spec fn hex_lower_of(bytes: Seq<u8>) -> Seq<char>
    decreases bytes.len(),
{
    if bytes.len() == 0 {
        Seq::empty()
    } else {
        seq![
            hex_digits()[(bytes[0] >> 4) as int],
            hex_digits()[(bytes[0] & 0x0f) as int],
        ] + hex_lower_of(bytes.drop_first())
    }
}

/// Relies on base16ct's lower-case hex encoder: two digits for each byte,
/// high nibble first. The encoder panics past half the address space, so
/// that length is left out.
#[verifier::external_body]
fn hex_lower(bytes: &Vec<u8>) -> (r: String)
    requires
        bytes@.len() <= usize::MAX / 2,
    ensures
        r@ == hex_lower_of(bytes@),
{
    base16ct::lower::encode_string(bytes.as_slice())
}

/// Why a stored hashed string could not be trusted.
#[derive(PartialEq, Eq, Debug, Clone, Copy)]
pub enum HashStringError {
    /// The stored form could not be decoded.
    DecodingError,
    /// The value does not match its recorded digest.
    ValidationError,
}

impl HashStringError {
    /// Human-readable description of the failure.
    pub fn message(&self) -> (r: String)
        ensures
            match self {
                HashStringError::DecodingError => r@ == "Error decoding data"@,
                HashStringError::ValidationError => r@ == "Error validating inner values"@,
            },
    {
        match self {
            HashStringError::DecodingError => String::from_str("Error decoding data"),
            HashStringError::ValidationError => String::from_str("Error validating inner values"),
        }
    }
}

/// A string paired with the lower-case hex of its SHA-256 digest, so that a
/// value read back from storage can be checked for tampering.
pub struct HashedString(String, String);

impl HashedString {
    /// The stored value, as a sequence of characters.
    pub closed spec fn spec_value(&self) -> Seq<char> {
        self.0@
    }

    /// The recorded digest, as stored.
    pub closed spec fn spec_hash(&self) -> Seq<char> {
        self.1@
    }

    /// The recorded digest is exactly the digest of the stored value.
    pub open spec fn well_formed(&self) -> bool {
        self.spec_hash() == hex_lower_of(sha256_of(self.spec_value()))
    }

    /// Pairs a value with its freshly computed digest.
    pub fn new(string: String) -> (r: Self)
        ensures
            r.well_formed(),
            r.spec_value() == string@,
    {
        let digest = sha256_digest(string.as_str());
        let hash = hex_lower(&digest);
        HashedString(string, hash)
    }

    /// Reassembles a value and a recorded digest read from storage; whether
    /// the pair is intact is what [`Self::check`] answers.
    pub fn from_parts(value: String, hash: String) -> (r: Self)
        ensures
            r.spec_value() == value@,
            r.spec_hash() == hash@,
    {
        HashedString(value, hash)
    }

    /// Recomputes the digest and compares it with the recorded one:
    /// succeeds exactly when the pair is intact.
    pub fn check(&self) -> (r: Result<(), HashStringError>)
        ensures
            r is Ok <==> self.well_formed(),
            r is Err ==> r == Err::<(), HashStringError>(HashStringError::ValidationError),
    {
        let digest = sha256_digest(self.0.as_str());
        let encoded_hash = hex_lower(&digest);
        if !(self.1 == encoded_hash) {
            return Err(HashStringError::ValidationError);
        }
        Ok(())
    }

    /// The stored value, released only when it matches its recorded digest.
    pub fn value(&self) -> (r: Result<&String, HashStringError>)
        ensures
            r is Ok <==> self.well_formed(),
            match r {
                Ok(v) => v@ == self.spec_value(),
                Err(e) => e == HashStringError::ValidationError,
            },
    {
        let digest = sha256_digest(self.0.as_str());
        let encoded_hash = hex_lower(&digest);
        if !(self.1 == encoded_hash) {
            return Err(HashStringError::ValidationError);
        }
        Ok(&self.0)
    }

    /// The stored value, with no integrity check.
    pub fn value_unchecked(&self) -> (r: &String)
        ensures
            r@ == self.spec_value(),
    {
        &self.0
    }

    /// The recorded digest, as stored.
    pub fn hash_hex(&self) -> (r: &String)
        ensures
            r@ == self.spec_hash(),
    {
        &self.1
    }
}

} // verus!
