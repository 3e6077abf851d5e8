//! The signing key pair, and the ways of getting one.

use vstd::prelude::*;
use vstd::string::*;
use crate::error::{CallError, CallErrorView, ErrorKind};
use crate::hexcode::{decode_hex, describe_hex_error, hex_decoded, hex_error_text};
use crate::text::{prefixed, text_views};
use crate::words::{lemma_single_piece, lemma_split_count, split_spaces, split_words};

verus! {

/// The number of bytes of each half of a key pair.
pub const KEY_LEN: usize = 32;

/// A signing key pair: the private key in the first 32 bytes, the public
/// key in the last 32. Its view is the sequence of its 64 bytes.
#[derive(Clone, Copy, Debug, PartialEq, Eq)]
pub struct KeyPair {
    bytes: [u8; 64],
}

impl View for KeyPair {
    type V = Seq<u8>;

    closed spec fn view(&self) -> Seq<u8> {
        self.bytes@
    }
}

impl KeyPair {
    /// Puts a private and a public key of 32 bytes each side by side.
    fn from_halves(secret: &Vec<u8>, public: &Vec<u8>) -> (pair: KeyPair)
        requires
            secret@.len() == 32,
            public@.len() == 32,
        ensures
            pair@ == secret@ + public@,
    {
        let mut bytes: [u8; 64] = [0u8; 64];
        let mut i: usize = 0;
        while i < 32
            invariant
                i <= 32,
                secret@.len() == 32,
                public@.len() == 32,
                forall|j: int| 0 <= j < i ==> bytes@[j] == secret@[j],
                forall|j: int| 0 <= j < i ==> bytes@[32 + j] == public@[j],
            decreases 32 - i,
        {
            bytes[i] = secret[i];
            bytes[32 + i] = public[i];
            i = i + 1;
        }
        assert(bytes@ =~= secret@ + public@);
        KeyPair { bytes }
    }

    /// The key pair held in 64 bytes, private key first.
    pub fn from_bytes(bytes: [u8; 64]) -> (pair: KeyPair)
        ensures
            pair@ == bytes@,
    {
        KeyPair { bytes }
    }

    /// The 64 bytes, private key first.
    pub fn to_bytes(&self) -> (bytes: [u8; 64])
        ensures
            bytes@ == self@,
    {
        self.bytes
    }

    /// A key pair always has 64 bytes.
    pub proof fn lemma_len(self)
        ensures
            self@.len() == 64,
    {
    }
}

/// The message of a component that does not decode: which key, and why.
pub open spec fn key_decode_error(prefix: Seq<char>, reason: Seq<char>) -> CallErrorView {
    CallErrorView { kind: ErrorKind::Decode, message: prefix + reason }
}

/// The key pair made of two decoded components, or the error for a
/// component that has not exactly 32 bytes. The private key is looked at
/// first.
pub open spec fn keypair_of_halves(secret: Seq<u8>, public: Seq<u8>) -> Result<
    Seq<u8>,
    CallErrorView,
> {
    if secret.len() != 32 {
        Err(key_decode_error("failed to decode private key: "@, "Invalid string length"@))
    } else if public.len() != 32 {
        Err(key_decode_error("failed to decode public key: "@, "Invalid string length"@))
    } else {
        Ok(secret + public)
    }
}

/// The key pair that the hexadecimal components `public` and `secret`, given
/// by their bytes, stand for. The public key is decoded first, then the
/// private key; the lengths are looked at when both have decoded.
pub open spec fn keypair_of_hex(public: Seq<u8>, secret: Seq<u8>) -> Result<
    Seq<u8>,
    CallErrorView,
> {
    match hex_decoded(public) {
        Err(e) => Err(key_decode_error("failed to decode public key: "@, hex_error_text(e))),
        Ok(public_bytes) => match hex_decoded(secret) {
            Err(e) => Err(key_decode_error("failed to decode private key: "@, hex_error_text(e))),
            Ok(secret_bytes) => keypair_of_halves(secret_bytes, public_bytes),
        },
    }
}

/// Whether a result of this module matches its mathematical value.
pub open spec fn keypair_result_is(
    r: Result<KeyPair, CallError>,
    v: Result<Seq<u8>, CallErrorView>,
) -> bool {
    match r {
        Ok(pair) => v == Ok::<Seq<u8>, CallErrorView>(pair@),
        Err(e) => v == Err::<Seq<u8>, CallErrorView>(e@),
    }
}

/// Assembles a key pair from its decoded halves, each of which must have
/// exactly 32 bytes.
pub fn keypair_from_halves(secret: &Vec<u8>, public: &Vec<u8>) -> (r: Result<KeyPair, CallError>)
    ensures
        keypair_result_is(r, keypair_of_halves(secret@, public@)),
{
    if secret.len() != KEY_LEN {
        Err(
            CallError::new(
                ErrorKind::Decode,
                prefixed("failed to decode private key: ", "Invalid string length"),
            ),
        )
    } else if public.len() != KEY_LEN {
        Err(
            CallError::new(
                ErrorKind::Decode,
                prefixed("failed to decode public key: ", "Invalid string length"),
            ),
        )
    } else {
        Ok(KeyPair::from_halves(secret, public))
    }
}

/// Assembles a key pair from the hexadecimal text of its public and of its
/// private key, as a phrase-derivation service hands them out.
pub fn keypair_from_hex(public: &str, secret: &str) -> (r: Result<KeyPair, CallError>)
    ensures
        keypair_result_is(r, keypair_of_hex(public.spec_bytes(), secret.spec_bytes())),
{
    let public_bytes = match decode_hex(public) {
        Ok(bytes) => bytes,
        Err(e) => {
            let reason = describe_hex_error(&e);
            return Err(
                CallError::new(
                    ErrorKind::Decode,
                    prefixed("failed to decode public key: ", reason.as_str()),
                ),
            );
        },
    };
    let secret_bytes = match decode_hex(secret) {
        Ok(bytes) => bytes,
        Err(e) => {
            let reason = describe_hex_error(&e);
            return Err(
                CallError::new(
                    ErrorKind::Decode,
                    prefixed("failed to decode private key: ", reason.as_str()),
                ),
            );
        },
    };
    keypair_from_halves(&secret_bytes, &public_bytes)
}

/// A key pair made of hexadecimal halves holds the decoded private key in
/// its first 32 bytes and the decoded public key in its last 32. It depends
/// on the two texts alone, so the same halves always give the same 64 bytes.
pub proof fn lemma_keypair_of_hex(public: Seq<u8>, secret: Seq<u8>)
    requires
        keypair_of_hex(public, secret) is Ok,
    ensures
        hex_decoded(secret) is Ok,
        hex_decoded(public) is Ok,
        keypair_of_hex(public, secret)->Ok_0.len() == 64,
        keypair_of_hex(public, secret)->Ok_0.subrange(0, 32) == hex_decoded(secret)->Ok_0,
        keypair_of_hex(public, secret)->Ok_0.subrange(32, 64) == hex_decoded(public)->Ok_0,
{
    let s = hex_decoded(secret)->Ok_0;
    let p = hex_decoded(public)->Ok_0;
    assert((s + p).subrange(0, 32) =~= s);
    assert((s + p).subrange(32, 64) =~= p);
}

/// A key pair is made exactly of halves that are hexadecimal text of 64
/// digits each.
pub proof fn lemma_keypair_of_hex_succeeds(public: Seq<u8>, secret: Seq<u8>)
    ensures
        keypair_of_hex(public, secret) is Ok <==> {
            &&& hex_decoded(public) is Ok
            &&& hex_decoded(secret) is Ok
            &&& public.len() == 64
            &&& secret.len() == 64
        },
{
}

/// How the key argument of a call asks for the key pair.
#[derive(Clone, Debug, PartialEq, Eq)]
pub enum KeyMaterialInput {
    /// A mnemonic phrase, given by its words: the key pair is derived from
    /// it.
    MnemonicPhrase(Vec<String>),
    /// The path of a key file: the key pair is read from it.
    KeyFileReference(String),
}

/// The mathematical value of a [`KeyMaterialInput`].
pub enum KeyMaterialInputView {
    MnemonicPhrase(Seq<Seq<char>>),
    KeyFileReference(Seq<char>),
}

impl View for KeyMaterialInput {
    type V = KeyMaterialInputView;

    open spec fn view(&self) -> KeyMaterialInputView {
        match self {
            KeyMaterialInput::MnemonicPhrase(words) => KeyMaterialInputView::MnemonicPhrase(
                text_views(words@),
            ),
            KeyMaterialInput::KeyFileReference(path) => KeyMaterialInputView::KeyFileReference(
                path@,
            ),
        }
    }
}

/// What a key argument stands for: a phrase where splitting it at single
/// spaces gives more than one piece, the path of a key file where it gives
/// just one.
pub open spec fn key_material_of(input: Seq<char>) -> KeyMaterialInputView {
    if split_spaces(input).len() > 1 {
        KeyMaterialInputView::MnemonicPhrase(split_spaces(input))
    } else {
        KeyMaterialInputView::KeyFileReference(input)
    }
}

/// The view of a key argument that may be missing.
pub open spec fn optional_key_material(input: Option<KeyMaterialInput>) -> Option<
    KeyMaterialInputView,
> {
    match input {
        Some(input) => Some(input@),
        None => None,
    }
}

impl KeyMaterialInput {
    /// Reads a key argument: several words are a phrase, a single word is
    /// the path of a key file.
    pub fn parse(input: &str) -> (r: KeyMaterialInput)
        ensures
            r@ == key_material_of(input@),
    {
        let mut words = split_words(input);
        if words.len() > 1 {
            KeyMaterialInput::MnemonicPhrase(words)
        } else {
            proof {
                lemma_single_piece(input@);
                assert(split_spaces(input@).len() == text_views(words@).len());
            }
            match words.pop() {
                Some(path) => KeyMaterialInput::KeyFileReference(path),
                None => KeyMaterialInput::KeyFileReference(String::from_str(input)),
            }
        }
    }
}

/// A key argument holds a single word exactly when it holds no space, so a
/// phrase of one word cannot be told from a path and is read as a path.
pub proof fn lemma_single_word_is_file(input: Seq<char>)
    ensures
        !input.contains(' ') <==> key_material_of(input) == KeyMaterialInputView::KeyFileReference(
            input,
        ),
{
    lemma_split_count(input);
    lemma_single_piece(input);
}

/// Decides how the key pair of a call is to be had: not at all where no key
/// argument is given, else from a key file or from a phrase.
pub fn load_keypair(keys: Option<String>) -> (r: Option<KeyMaterialInput>)
    ensures
        optional_key_material(r) == match keys {
            Some(input) => Some(key_material_of(input@)),
            None => None,
        },
{
    match keys {
        Some(input) => Some(KeyMaterialInput::parse(input.as_str())),
        None => None,
    }
}

} // verus!
