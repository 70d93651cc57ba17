//! Block encryption of traffic with AES, keyed by the SHA-256 digest of a pass phrase.
use vstd::prelude::*;
use vstd::slice::*;
use vstd::string::*;
use vstd::utf8::encode_utf8;
use sha2::Digest;

verus! {

/// The cipher and mode.
#[derive(PartialEq, Eq, Structural, Clone, Copy, Debug)]
pub enum EncryptionType {
    Aes256Cbc,
    Aes256Ctr,
    Aes128Ctr,
    Aes128Cbc,
}

#[verifier::external_type_specification]
#[verifier::external_body]
pub struct ExErrorStack(openssl::error::ErrorStack);

/// Why a block could not be encrypted or decrypted.
#[derive(Debug)]
pub enum CipherError {
    /// The key is shorter than the cipher's key length.
    KeyTooShort,
    /// The IV is shorter than the cipher's IV length.
    IvTooShort,
    /// OpenSSL refused the operation.
    Openssl(openssl::error::ErrorStack),
}

/// The SHA-256 digest of some bytes.
pub uninterp spec fn sha256(data: Seq<u8>) -> Seq<u8>;

/// The key length of a cipher: 32 bytes for AES-256, 16 for AES-128.
pub open spec fn cipher_key_len(t: EncryptionType) -> usize {
    match t {
        EncryptionType::Aes256Cbc | EncryptionType::Aes256Ctr => 32,
        EncryptionType::Aes128Cbc | EncryptionType::Aes128Ctr => 16,
    }
}

/// The IV length of a cipher: 16 bytes, one AES block, in both modes.
pub open spec fn cipher_iv_len(t: EncryptionType) -> Option<usize> {
    Some(16)
}

/// The block size of a cipher: 16 bytes in CBC mode; 1 in CTR mode, which is a stream mode.
pub open spec fn cipher_block_size(t: EncryptionType) -> usize {
    match t {
        EncryptionType::Aes256Cbc | EncryptionType::Aes128Cbc => 16,
        EncryptionType::Aes256Ctr | EncryptionType::Aes128Ctr => 1,
    }
}

/// What OpenSSL encrypts `data` into with padding, or `None` when it refuses.
pub uninterp spec fn openssl_encrypted(t: EncryptionType, key: Seq<u8>, iv: Seq<u8>, data: Seq<u8>) -> Option<Seq<u8>>;

/// What OpenSSL decrypts `data` into with padding, or `None` when it refuses (for instance
/// on bad padding).
pub uninterp spec fn openssl_decrypted(t: EncryptionType, key: Seq<u8>, iv: Seq<u8>, data: Seq<u8>) -> Option<Seq<u8>>;

/// `sha2::Sha256::digest`: the 32-byte SHA-256 digest of `data`.
#[verifier::external_body]
fn sha256_digest(data: &[u8]) -> (r: Vec<u8>)
    ensures
        r@ == sha256(data@),
        r@.len() == 32,
{
    sha2::Sha256::digest(data).to_vec()
}

/// `openssl::symm::Cipher::key_len` of the cipher for `t`: the AES key length.
#[verifier::external_body]
fn key_len(t: EncryptionType) -> (r: usize)
    ensures
        r == cipher_key_len(t),
{
    match t {
        EncryptionType::Aes256Cbc => openssl::symm::Cipher::aes_256_cbc(),
        EncryptionType::Aes256Ctr => openssl::symm::Cipher::aes_256_ctr(),
        EncryptionType::Aes128Cbc => openssl::symm::Cipher::aes_128_cbc(),
        EncryptionType::Aes128Ctr => openssl::symm::Cipher::aes_128_ctr(),
    }.key_len()
}

/// `openssl::symm::Cipher::iv_len` of the cipher for `t`: one AES block.
#[verifier::external_body]
fn iv_len(t: EncryptionType) -> (r: Option<usize>)
    ensures
        r == cipher_iv_len(t),
{
    match t {
        EncryptionType::Aes256Cbc => openssl::symm::Cipher::aes_256_cbc(),
        EncryptionType::Aes256Ctr => openssl::symm::Cipher::aes_256_ctr(),
        EncryptionType::Aes128Cbc => openssl::symm::Cipher::aes_128_cbc(),
        EncryptionType::Aes128Ctr => openssl::symm::Cipher::aes_128_ctr(),
    }.iv_len()
}

/// `openssl::symm::Cipher::block_size` of the cipher for `t`: one AES block in CBC mode,
/// 1 in CTR mode.
#[verifier::external_body]
fn block_size_of(t: EncryptionType) -> (r: usize)
    ensures
        r == cipher_block_size(t),
{
    match t {
        EncryptionType::Aes256Cbc => openssl::symm::Cipher::aes_256_cbc(),
        EncryptionType::Aes256Ctr => openssl::symm::Cipher::aes_256_ctr(),
        EncryptionType::Aes128Cbc => openssl::symm::Cipher::aes_128_cbc(),
        EncryptionType::Aes128Ctr => openssl::symm::Cipher::aes_128_ctr(),
    }.block_size()
}

/// `openssl::symm::encrypt` with the cipher for `t`: a `Crypter` with padding, fed all of
/// `data` and finished.  In CTR mode, a stream mode, the result is as long as `data`; in
/// CBC mode PKCS#7 padding fills up the last block, a whole block when `data` ends on a
/// block boundary.  Decrypting the result with the same cipher, key and IV gives `data`
/// back (AES in CBC mode with PKCS#7 padding and in CTR mode is invertible).  The key and
/// IV have the cipher's lengths, and `data` is short enough for OpenSSL's `int` lengths, on
/// which the crate would panic.
#[verifier::external_body]
fn symm_encrypt(t: EncryptionType, key: &[u8], iv: &[u8], data: &[u8]) -> (r: Result<Vec<u8>, openssl::error::ErrorStack>)
    requires
        key@.len() == cipher_key_len(t),
        iv@.len() == effective_iv_len(t),
        data@.len() <= i32::MAX,
    ensures
        r is Ok <==> openssl_encrypted(t, key@, iv@, data@) is Some,
        r matches Ok(v) ==> v@ == openssl_encrypted(t, key@, iv@, data@).unwrap(),
        r matches Ok(v) ==> (cipher_block_size(t) == 1 ==> v@.len() == data@.len()),
        r matches Ok(v) ==> (cipher_block_size(t) > 1 ==> v@.len() == data@.len() + 16 - data@.len() % 16),
        r matches Ok(v) ==> openssl_decrypted(t, key@, iv@, v@) == Some(data@),
{
    let cipher = match t {
        EncryptionType::Aes256Cbc => openssl::symm::Cipher::aes_256_cbc(),
        EncryptionType::Aes256Ctr => openssl::symm::Cipher::aes_256_ctr(),
        EncryptionType::Aes128Cbc => openssl::symm::Cipher::aes_128_cbc(),
        EncryptionType::Aes128Ctr => openssl::symm::Cipher::aes_128_ctr(),
    };
    openssl::symm::encrypt(cipher, key, Some(iv), data)
}

/// `openssl::symm::decrypt` with the cipher for `t`: a `Crypter` with padding, fed all of
/// `data` and finished; the result is no longer than `data` (CTR keeps the length, CBC
/// drops the padding).  The key and
/// IV have the cipher's lengths, and `data` is short enough for OpenSSL's `int` lengths, on
/// which the crate would panic.
#[verifier::external_body]
fn symm_decrypt(t: EncryptionType, key: &[u8], iv: &[u8], data: &[u8]) -> (r: Result<Vec<u8>, openssl::error::ErrorStack>)
    requires
        key@.len() == cipher_key_len(t),
        iv@.len() == effective_iv_len(t),
        data@.len() <= i32::MAX,
    ensures
        r is Ok <==> openssl_decrypted(t, key@, iv@, data@) is Some,
        r matches Ok(v) ==> v@ == openssl_decrypted(t, key@, iv@, data@).unwrap(),
        r matches Ok(v) ==> v@.len() <= data@.len(),
{
    let cipher = match t {
        EncryptionType::Aes256Cbc => openssl::symm::Cipher::aes_256_cbc(),
        EncryptionType::Aes256Ctr => openssl::symm::Cipher::aes_256_ctr(),
        EncryptionType::Aes128Cbc => openssl::symm::Cipher::aes_128_cbc(),
        EncryptionType::Aes128Ctr => openssl::symm::Cipher::aes_128_ctr(),
    };
    openssl::symm::decrypt(cipher, key, Some(iv), data)
}

/// The room past the input that OpenSSL needs in the output buffer: one block for a block
/// cipher, none for a stream cipher.
pub open spec fn output_margin(block_size: usize) -> int {
    if block_size > 1 {
        block_size as int
    } else {
        0
    }
}

/// The key length a cipher uses, and the IV length, which is 16 for a cipher that reports
/// none.
pub open spec fn effective_iv_len(t: EncryptionType) -> usize {
    match cipher_iv_len(t) {
        Some(n) => n,
        None => 16,
    }
}

/// Encrypts or decrypts traffic with one cipher and one key.
pub struct DataCipher {
    encryption_type: EncryptionType,
    key: Vec<u8>,
}

impl DataCipher {
    pub closed spec fn spec_type(&self) -> EncryptionType {
        self.encryption_type
    }

    /// The key: the SHA-256 digest of the pass phrase.
    pub closed spec fn spec_key(&self) -> Seq<u8> {
        self.key@
    }

    /// A cipher of type `encryption_type` whose key is the SHA-256 digest of the UTF-8 bytes
    /// of `key`.
    pub fn new_init(encryption_type: EncryptionType, key: String) -> (r: DataCipher)
        ensures
            r.spec_type() == encryption_type,
            r.spec_key() == sha256(encode_utf8(key@)),
            r.spec_key().len() == 32,
    {
        let hash = sha256_digest(key.as_str().as_bytes());
        DataCipher { encryption_type, key: hash }
    }

    /// The block size of the cipher.
    pub fn block_size(&self) -> (r: usize)
        ensures
            r == cipher_block_size(self.spec_type()),
    {
        block_size_of(self.encryption_type)
    }

    /// The size of the output buffer that `encrypt_block` and `decrypt_block` need for
    /// `input_len` bytes: the same for a stream mode; one more block for a block mode, which
    /// also holds the PKCS#7 padding, a whole block when the input fills its last block.
    pub fn required_buffer_size(&self, input_len: usize) -> (r: usize)
        requires
            input_len + output_margin(cipher_block_size(self.spec_type())) <= usize::MAX,
        ensures
            r == input_len + output_margin(cipher_block_size(self.spec_type())),
            (self.spec_type() == EncryptionType::Aes256Ctr || self.spec_type()
                == EncryptionType::Aes128Ctr) ==> r == input_len,
            (self.spec_type() == EncryptionType::Aes256Cbc || self.spec_type()
                == EncryptionType::Aes128Cbc) ==> r == input_len + 16 && r >= input_len + 16 - input_len % 16,
    {
        match self.encryption_type {
            EncryptionType::Aes256Ctr | EncryptionType::Aes128Ctr => input_len,
            EncryptionType::Aes256Cbc | EncryptionType::Aes128Cbc => input_len + self.block_size(),
        }
    }

    /// Encrypts `input` into the front of `output` with the IV `iv`, and returns the number
    /// of bytes written.  Once the key and IV are long enough, OpenSSL needs room for the
    /// input and one more block in `output`, and an input length that fits in an `i32`.
    pub fn encrypt_block(&self, input: &[u8], output: &mut [u8], iv: &[u8]) -> (r: Result<usize, CipherError>)
        requires
            self.reaches_openssl(iv@) ==> self.fits_openssl(input@.len(), old(output)@.len()),
        ensures
            self.crypt_outcome(true, input@, iv@, old(output)@, final(output)@, r),
            r matches Ok(n) ==> self.decrypts_to(iv@, final(output)@.subrange(0, n as int), input@),
    {
        self.crypt(input, output, iv, true)
    }

    /// Decrypts `input` into the front of `output` with the IV `iv`, and returns the number
    /// of bytes written.  Once the key and IV are long enough, OpenSSL needs room for the
    /// input and one more block in `output`, and an input length that fits in an `i32`.
    pub fn decrypt_block(&self, input: &[u8], output: &mut [u8], iv: &[u8]) -> (r: Result<usize, CipherError>)
        requires
            self.reaches_openssl(iv@) ==> self.fits_openssl(input@.len(), old(output)@.len()),
        ensures
            self.crypt_outcome(false, input@, iv@, old(output)@, final(output)@, r),
    {
        self.crypt(input, output, iv, false)
    }

    /// What a call of `crypt` does: with a key and IV at least as long as the cipher needs,
    /// their first bytes go to OpenSSL, and its result is written to the front of the output
    /// buffer; the rest of the buffer, and the whole buffer on any failure, is left as it was.
    pub open spec fn crypt_outcome(
        &self,
        encrypt: bool,
        input: Seq<u8>,
        iv: Seq<u8>,
        before: Seq<u8>,
        after: Seq<u8>,
        r: Result<usize, CipherError>,
    ) -> bool {
        let t = self.spec_type();
        let kl = cipher_key_len(t) as int;
        let il = effective_iv_len(t) as int;
        if self.spec_key().len() < kl {
            r matches Err(CipherError::KeyTooShort) && after == before
        } else if iv.len() < il {
            r matches Err(CipherError::IvTooShort) && after == before
        } else {
            let key = self.spec_key().subrange(0, kl);
            let ivs = iv.subrange(0, il);
            let res = if encrypt {
                openssl_encrypted(t, key, ivs, input)
            } else {
                openssl_decrypted(t, key, ivs, input)
            };
            match res {
                None => r matches Err(CipherError::Openssl(_)) && after == before,
                Some(v) => r matches Ok(n) && n == v.len() && v.len() <= before.len() && after == v
                    + before.subrange(v.len() as int, before.len() as int),
            }
        }
    }

    /// Whether a call with the IV `iv` gets as far as OpenSSL: the key and the IV are at
    /// least as long as the cipher needs.
    pub open spec fn reaches_openssl(&self, iv: Seq<u8>) -> bool {
        &&& self.spec_key().len() >= cipher_key_len(self.spec_type())
        &&& iv.len() >= effective_iv_len(self.spec_type())
    }

    /// Whether OpenSSL takes an input of `input_len` bytes and an output buffer of
    /// `output_len` bytes without panicking.
    pub open spec fn fits_openssl(&self, input_len: nat, output_len: nat) -> bool {
        &&& output_len >= input_len + output_margin(cipher_block_size(self.spec_type()))
        &&& input_len <= i32::MAX
    }

    /// Whether the key is at least as long as the cipher's key length.
    pub fn key_fits(&self) -> (b: bool)
        ensures
            b == (self.spec_key().len() >= cipher_key_len(self.spec_type())),
    {
        self.key.len() >= key_len(self.encryption_type)
    }

    /// Whether `iv` is at least as long as the cipher's IV length, which is 16 for a cipher
    /// that reports none.
    pub fn iv_fits(&self, iv: &[u8]) -> (b: bool)
        ensures
            b == (iv@.len() >= effective_iv_len(self.spec_type())),
    {
        let iv_len = match iv_len(self.encryption_type) {
            Some(n) => n,
            None => 16,
        };
        iv.len() >= iv_len
    }

    /// Whether `ciphertext` decrypts to `plain` with this cipher's key and the IV `iv`.
    pub open spec fn decrypts_to(&self, iv: Seq<u8>, ciphertext: Seq<u8>, plain: Seq<u8>) -> bool {
        let t = self.spec_type();
        &&& self.reaches_openssl(iv)
        &&& openssl_decrypted(
            t,
            self.spec_key().subrange(0, cipher_key_len(t) as int),
            iv.subrange(0, effective_iv_len(t) as int),
            ciphertext,
        ) == Some(plain)
    }

    fn crypt(&self, input: &[u8], output: &mut [u8], iv: &[u8], encrypt: bool) -> (r: Result<usize, CipherError>)
        requires
            self.reaches_openssl(iv@) ==> self.fits_openssl(input@.len(), old(output)@.len()),
        ensures
            self.crypt_outcome(encrypt, input@, iv@, old(output)@, final(output)@, r),
            encrypt ==> (r matches Ok(n) ==> self.decrypts_to(iv@, final(output)@.subrange(0, n as int), input@)),
    {
        if !self.key_fits() {
            return Err(CipherError::KeyTooShort);
        }
        if !self.iv_fits(iv) {
            return Err(CipherError::IvTooShort);
        }
        let t = self.encryption_type;
        let key_len = key_len(t);
        let iv_len = match iv_len(t) {
            Some(n) => n,
            None => 16,
        };
        let key = slice_subrange(self.key.as_slice(), 0, key_len);
        let ivs = slice_subrange(iv, 0, iv_len);
        let res = if encrypt {
            symm_encrypt(t, key, ivs, input)
        } else {
            symm_decrypt(t, key, ivs, input)
        };
        match res {
            Err(e) => Err(CipherError::Openssl(e)),
            Ok(v) => {
                copy_to_front(output, v.as_slice());
                assert(output@.subrange(0, v@.len() as int) =~= v@);
                Ok(v.len())
            },
        }
    }
}

/// Decryption undoes encryption: bytes that decrypt to `plain` with a cipher's key and an
/// IV, as `encrypt_block`'s output does to its input, are decrypted by `decrypt_block` of a
/// cipher of the same type and key (as `new_init` makes from the same pass phrase) with the
/// same IV into `plain`, given room for it.
pub proof fn decryption_undoes_encryption(
    encrypting: DataCipher,
    decrypting: DataCipher,
    iv: Seq<u8>,
    ciphertext: Seq<u8>,
    plain: Seq<u8>,
    before: Seq<u8>,
    after: Seq<u8>,
    r: Result<usize, CipherError>,
)
    requires
        encrypting.decrypts_to(iv, ciphertext, plain),
        decrypting.spec_type() == encrypting.spec_type(),
        decrypting.spec_key() == encrypting.spec_key(),
        decrypting.crypt_outcome(false, ciphertext, iv, before, after, r),
    ensures
        r matches Ok(n) && n == plain.len(),
        after.subrange(0, plain.len() as int) == plain,
{
    assert(after.subrange(0, plain.len() as int) =~= plain);
}

/// The text of a cipher error: for OpenSSL's errors, the text of their stack.
#[verifier::external_body]
fn error_stack_text(e: &openssl::error::ErrorStack) -> String {
    e.to_string()
}

impl CipherError {
    /// The text of the error.
    pub fn to_string(&self) -> (r: String)
        ensures
            self is KeyTooShort ==> r@ == "Key is too short for the selected cipher"@,
            self is IvTooShort ==> r@ == "IV is too short for the selected cipher"@,
    {
        match self {
            CipherError::KeyTooShort => String::from_str("Key is too short for the selected cipher"),
            CipherError::IvTooShort => String::from_str("IV is too short for the selected cipher"),
            CipherError::Openssl(e) => error_stack_text(e),
        }
    }
}

/// Writes `data` over the front of `output`.
fn copy_to_front(output: &mut [u8], data: &[u8])
    requires
        data@.len() <= old(output)@.len(),
    ensures
        final(output)@ == data@ + old(output)@.subrange(data@.len() as int, old(output)@.len() as int),
{
    let mut i: usize = 0;
    while i < data.len()
        invariant
            i <= data@.len(),
            data@.len() <= old(output)@.len(),
            output@.len() == old(output)@.len(),
            forall|j: int| 0 <= j < i ==> #[trigger] output@[j] == data@[j],
            forall|j: int| i <= j < output@.len() ==> #[trigger] output@[j] == old(output)@[j],
        decreases data@.len() - i,
    {
        output[i] = data[i];
        i = i + 1;
    }
    assert(output@ =~= data@ + old(output)@.subrange(data@.len() as int, old(output)@.len() as int));
}

} // verus!
