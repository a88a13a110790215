//! Checksums: which algorithm made them, how the file's bytes were read, and
//! the digest itself.

use vstd::prelude::*;
use vstd::std_specs::cmp::PartialEqSpecImpl;
use crate::hex::{decode_range, decode_spec, encode, encode_spec};
use crate::text::{cat3, chars_of, string_of};

verus! {

/// The number of bytes read from a file at a time, unless the caller says otherwise.
pub const DEFAULT_CHUNK_SIZE: usize = 65536;

/// The hash algorithms that a manifest can record.
#[derive(Clone, Copy, Debug, PartialEq, Eq, Structural, Hash)]
pub enum ChecksumAlgorithm {
    SHA512,
    BLAKE2B512,
}

impl ChecksumAlgorithm {
    /// The length in bytes of every digest of this algorithm.
    pub open spec fn spec_digest_len(self) -> nat {
        match self {
            ChecksumAlgorithm::SHA512 => 64,
            ChecksumAlgorithm::BLAKE2B512 => 64,
        }
    }

    /// The length in bytes of every digest of this algorithm.
    pub fn digest_len(self) -> (n: usize)
        ensures
            n == self.spec_digest_len(),
    {
        match self {
            ChecksumAlgorithm::SHA512 => 64,
            ChecksumAlgorithm::BLAKE2B512 => 64,
        }
    }

    /// The name under which the algorithm is shown to the user.
    pub open spec fn spec_name(self) -> Seq<char> {
        match self {
            ChecksumAlgorithm::SHA512 => "sha512"@,
            ChecksumAlgorithm::BLAKE2B512 => "blake2b512"@,
        }
    }

    /// The name under which the algorithm is shown to the user.
    pub fn name(self) -> (n: &'static str)
        ensures
            n@ == self.spec_name(),
    {
        match self {
            ChecksumAlgorithm::SHA512 => "sha512",
            ChecksumAlgorithm::BLAKE2B512 => "blake2b512",
        }
    }
}

impl Default for ChecksumAlgorithm {
    fn default() -> (a: Self)
        ensures
            a == ChecksumAlgorithm::SHA512,
    {
        ChecksumAlgorithm::SHA512
    }
}

/// How a file's bytes are read before they are hashed: as they are, or with
/// line endings normalised. The two give different digests of one file.
#[derive(Clone, Copy, Debug, PartialEq, Eq, Structural, Hash)]
pub enum ChecksumMode {
    Binary,
    Text,
}

impl Default for ChecksumMode {
    fn default() -> (m: Self)
        ensures
            m == ChecksumMode::Binary,
    {
        ChecksumMode::Binary
    }
}

/// What a checksum is, as a mathematical value.
pub struct ChecksumView {
    pub algorithm: ChecksumAlgorithm,
    pub mode: ChecksumMode,
    pub digest: Seq<u8>,
}

/// A digest together with the algorithm and the mode that produced it.
#[derive(Clone, Debug, Eq)]
pub struct Checksum {
    pub algorithm: ChecksumAlgorithm,
    pub mode: ChecksumMode,
    pub digest: Vec<u8>,
}

impl View for Checksum {
    type V = ChecksumView;

    open spec fn view(&self) -> ChecksumView {
        ChecksumView { algorithm: self.algorithm, mode: self.mode, digest: self.digest@ }
    }
}

impl ChecksumView {
    /// Whether the digest has the length that its algorithm gives every digest.
    pub open spec fn canonical(self) -> bool {
        self.digest.len() == self.algorithm.spec_digest_len()
    }

    /// The digest in lowercase hexadecimal.
    pub open spec fn hex(self) -> Seq<char> {
        encode_spec(self.digest)
    }
}

impl Checksum {
    /// A checksum from its three parts.
    pub fn new(algorithm: ChecksumAlgorithm, mode: ChecksumMode, digest: Vec<u8>) -> (c: Self)
        ensures
            c@ == (ChecksumView { algorithm, mode, digest: digest@ }),
    {
        Checksum { algorithm, mode, digest }
    }

    /// The checksum whose digest is written in `text` in hexadecimal, of
    /// either case; `None` where `text` is no such writing.
    pub fn from_hex(algorithm: ChecksumAlgorithm, mode: ChecksumMode, text: &str) -> (c: Option<
        Self,
    >)
        ensures
            match c {
                Some(checksum) => decode_spec(text@) == Some(checksum@.digest) && checksum@.algorithm
                    == algorithm && checksum@.mode == mode,
                None => decode_spec(text@) is None,
            },
    {
        let chars = chars_of(text);
        proof {
            assert(chars@.subrange(0, chars@.len() as int) =~= text@);
        }
        match decode_range(&chars, 0, chars.len()) {
            Some(digest) => Some(Checksum { algorithm, mode, digest }),
            None => None,
        }
    }

    /// Whether the digest has the length that its algorithm gives every digest.
    pub fn is_canonical(&self) -> (b: bool)
        ensures
            b == self@.canonical(),
    {
        self.digest.len() == self.algorithm.digest_len()
    }

    /// Whether two checksums have the same algorithm, mode and digest bytes.
    pub fn same_as(&self, other: &Checksum) -> (b: bool)
        ensures
            b == (self@ == other@),
    {
        if !(self.algorithm == other.algorithm && self.mode == other.mode) {
            return false;
        }
        if self.digest.len() != other.digest.len() {
            return false;
        }
        let mut i: usize = 0;
        while i < self.digest.len()
            invariant
                i <= self.digest.len(),
                self.digest.len() == other.digest.len(),
                forall|k: int| 0 <= k < i ==> self.digest@[k] == other.digest@[k],
            decreases self.digest.len() - i,
        {
            if self.digest[i] != other.digest[i] {
                return false;
            }
            i += 1;
        }
        proof {
            assert(self.digest@ =~= other.digest@);
        }
        true
    }

    /// The digest in lowercase hexadecimal, two digits per byte.
    pub fn to_hex(&self) -> (text: String)
        ensures
            text@ == self@.hex(),
    {
        let chars = encode(&self.digest);
        string_of(&chars)
    }

    /// A copy of the checksum.
    pub fn duplicate(&self) -> (c: Self)
        ensures
            c@ == self@,
    {
        let mut digest: Vec<u8> = Vec::new();
        let mut i: usize = 0;
        while i < self.digest.len()
            invariant
                i <= self.digest.len(),
                digest@ == self.digest@.take(i as int),
            decreases self.digest.len() - i,
        {
            digest.push(self.digest[i]);
            proof {
                assert(self.digest@.take(i + 1) =~= self.digest@.take(i as int).push(
                    self.digest@[i as int],
                ));
            }
            i += 1;
        }
        proof {
            assert(self.digest@.take(i as int) =~= self.digest@);
        }
        Checksum { algorithm: self.algorithm, mode: self.mode, digest }
    }
}

impl PartialEq for Checksum {
    fn eq(&self, other: &Checksum) -> (b: bool) {
        self.same_as(other)
    }
}

impl PartialEqSpecImpl for Checksum {
    open spec fn obeys_eq_spec() -> bool {
        true
    }

    open spec fn eq_spec(&self, other: &Checksum) -> bool {
        self@ == other@
    }
}

/// Why a file's checksum could not be computed.
#[derive(Clone, Debug)]
pub struct ChecksumError {
    /// The file that was being read.
    pub filepath: String,
    /// What went wrong, in words.
    pub cause: String,
}

impl ChecksumError {
    /// The error in words: the file, a colon and the cause.
    pub open spec fn spec_to_string(self) -> Seq<char> {
        self.filepath@ + ": "@ + self.cause@
    }

    /// The error in words: the file, a colon and the cause.
    pub fn to_string(&self) -> (text: String)
        ensures
            text@ == self.spec_to_string(),
    {
        cat3(self.filepath.as_str(), ": ", self.cause.as_str())
    }
}

/// What the checksum provider is asked to do for one file.
#[derive(Clone, Debug)]
pub struct ChecksumOptions {
    /// The file to read.
    pub filepath: String,
    /// The algorithm to hash with.
    pub algorithm: ChecksumAlgorithm,
    /// How to read the file's bytes.
    pub mode: ChecksumMode,
    /// How many bytes to read at a time; `None` for `DEFAULT_CHUNK_SIZE`.
    pub chunk_size: Option<usize>,
}

} // verus!
