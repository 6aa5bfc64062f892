//! Token identifiers.
//!
//! A collection names its tokens in one of two ways, fixed when it is
//! installed: by the ordinal of the mint, or by a text that is derived from
//! the token's metadata or supplied by the minter.

use vstd::prelude::*;

use crate::error::NftError;
use crate::keyed::Key;
use crate::text::{decimal, decimal_text, hex, hex_text, lemma_decimal_injective};

verus! {

/// How a collection forms the identifiers of its tokens.
#[derive(Clone, Copy, Debug, PartialEq, Eq, Structural)]
pub enum IdentifierMode {
    /// A token is named by the number of tokens minted before it.
    Ordinal,
    /// A token is named by a text.
    Hash,
}

/// The identity of a token within its collection.
#[derive(Clone, Debug, PartialEq, Eq)]
pub enum TokenIdentifier {
    /// The token's ordinal.
    Ordinal(u64),
    /// The token's content hash, or the name it was minted under.
    Hash(String),
}

/// What a token identifier stands for.
pub enum TokenId {
    /// The token's ordinal.
    Ordinal(u64),
    /// The characters of the token's hash or name.
    Hash(Seq<char>),
}

impl TokenId {
    /// The identifier mode that this identifier belongs to.
    pub open spec fn mode(self) -> IdentifierMode {
        match self {
            TokenId::Ordinal(_) => IdentifierMode::Ordinal,
            TokenId::Hash(_) => IdentifierMode::Hash,
        }
    }

    /// The text under which a table of the host files this identifier: an
    /// ordinal in decimal, a hash as it is.
    pub open spec fn canonical_key(self) -> Seq<char> {
        match self {
            TokenId::Ordinal(n) => decimal(n as nat),
            TokenId::Hash(h) => h,
        }
    }

    /// Within one identifier mode, different identifiers are filed under
    /// different keys.
    pub proof fn lemma_canonical_key_injective(a: TokenId, b: TokenId)
        requires
            a.mode() == b.mode(),
            a.canonical_key() == b.canonical_key(),
        ensures
            a == b,
    {
        match (a, b) {
            (TokenId::Ordinal(x), TokenId::Ordinal(y)) => {
                lemma_decimal_injective(x as nat, y as nat);
            },
            _ => {},
        }
    }
}

impl View for TokenIdentifier {
    type V = TokenId;

    open spec fn view(&self) -> TokenId {
        match self {
            TokenIdentifier::Ordinal(n) => TokenId::Ordinal(*n),
            TokenIdentifier::Hash(h) => TokenId::Hash(h@),
        }
    }
}

impl Key for TokenIdentifier {
    fn same(&self, other: &TokenIdentifier) -> (r: bool) {
        match (self, other) {
            (TokenIdentifier::Ordinal(a), TokenIdentifier::Ordinal(b)) => *a == *b,
            (TokenIdentifier::Hash(a), TokenIdentifier::Hash(b)) => *a == *b,
            _ => false,
        }
    }

    fn duplicate(&self) -> (r: TokenIdentifier) {
        match self {
            TokenIdentifier::Ordinal(n) => TokenIdentifier::Ordinal(*n),
            TokenIdentifier::Hash(h) => TokenIdentifier::Hash(h.clone()),
        }
    }
}

impl TokenIdentifier {
    /// The identifier mode that this identifier belongs to.
    pub fn mode(&self) -> (m: IdentifierMode)
        ensures
            m == self@.mode(),
    {
        match self {
            TokenIdentifier::Ordinal(_) => IdentifierMode::Ordinal,
            TokenIdentifier::Hash(_) => IdentifierMode::Hash,
        }
    }

    /// The identifier of the token with ordinal `index`, for a collection
    /// in mode `mode`. It exists in ordinal mode only.
    pub fn ordinal(mode: IdentifierMode, index: u64) -> (r: Result<TokenIdentifier, NftError>)
        ensures
            mode == IdentifierMode::Ordinal ==> r is Ok && r->Ok_0@ == TokenId::Ordinal(index),
            mode != IdentifierMode::Ordinal ==> r == Err::<TokenIdentifier, NftError>(
                NftError::InvalidIdentifierMode,
            ),
    {
        match mode {
            IdentifierMode::Ordinal => Ok(TokenIdentifier::Ordinal(index)),
            IdentifierMode::Hash => Err(NftError::InvalidIdentifierMode),
        }
    }

    /// The identifier of the token named `text`, for a collection in mode
    /// `mode`. It exists in hash mode only.
    pub fn hash(mode: IdentifierMode, text: String) -> (r: Result<TokenIdentifier, NftError>)
        ensures
            mode == IdentifierMode::Hash ==> r is Ok && r->Ok_0@ == TokenId::Hash(text@),
            mode != IdentifierMode::Hash ==> r == Err::<TokenIdentifier, NftError>(
                NftError::InvalidIdentifierMode,
            ),
    {
        match mode {
            IdentifierMode::Hash => Ok(TokenIdentifier::Hash(text)),
            IdentifierMode::Ordinal => Err(NftError::InvalidIdentifierMode),
        }
    }

    /// Accepts this identifier for a collection in mode `mode`, or reports
    /// that it is of the other variant.
    pub fn check_mode(&self, mode: IdentifierMode) -> (r: Result<(), NftError>)
        ensures
            self@.mode() == mode ==> r == Ok::<(), NftError>(()),
            self@.mode() != mode ==> r == Err::<(), NftError>(NftError::InvalidIdentifierMode),
    {
        match (self, mode) {
            (TokenIdentifier::Ordinal(_), IdentifierMode::Ordinal) => Ok(()),
            (TokenIdentifier::Hash(_), IdentifierMode::Hash) => Ok(()),
            _ => Err(NftError::InvalidIdentifierMode),
        }
    }

    /// The text under which a table of the host files this identifier.
    pub fn to_key(&self) -> (key: String)
        ensures
            key@ == self@.canonical_key(),
    {
        match self {
            TokenIdentifier::Ordinal(n) => decimal_text(*n),
            TokenIdentifier::Hash(h) => h.clone(),
        }
    }
}

/// One round of the digest: the byte is mixed into the state, which is then
/// multiplied, modulo two to the sixty-fourth.
pub open spec fn digest_step(state: u64, byte: u8) -> u64 {
    (state ^ (byte as u64)).wrapping_mul(0x0000_0100_0000_01b3u64)
}

/// The digest of a byte string: the rounds of `digest_step` over its bytes,
/// first to last, from a fixed initial state.
pub open spec fn digest(bytes: Seq<u8>) -> u64
    decreases bytes.len(),
{
    if bytes.len() == 0 {
        0xcbf2_9ce4_8422_2325u64
    } else {
        digest_step(digest(bytes.drop_last()), bytes.last())
    }
}

/// The hash under which a token with metadata `bytes` is named: the digest
/// of the bytes in sixteen hexadecimal digits.
pub open spec fn content_hash(bytes: Seq<u8>) -> Seq<char> {
    hex(digest(bytes) as nat, 16)
}

/// The digest of `bytes`.
pub fn compute_digest(bytes: &[u8]) -> (d: u64)
    ensures
        d == digest(bytes@),
{
    let mut state: u64 = 0xcbf2_9ce4_8422_2325u64;
    let mut i: usize = 0;
    while i < bytes.len()
        invariant
            i <= bytes@.len(),
            state == digest(bytes@.subrange(0, i as int)),
        decreases bytes@.len() - i,
    {
        proof {
            let next = bytes@.subrange(0, i + 1);
            assert(next.drop_last() =~= bytes@.subrange(0, i as int));
            assert(next.last() == bytes@[i as int]);
        }
        state = (state ^ (bytes[i] as u64)).wrapping_mul(0x0000_0100_0000_01b3u64);
        i += 1;
    }
    proof {
        assert(bytes@.subrange(0, i as int) =~= bytes@);
    }
    state
}

/// The hash under which a token with metadata `bytes` is named.
pub fn compute_content_hash(bytes: &[u8]) -> (h: String)
    ensures
        h@ == content_hash(bytes@),
{
    hex_text(compute_digest(bytes))
}

/// What a supplied name stands for.
pub open spec fn name_view(name: Option<String>) -> Option<Seq<char>> {
    match name {
        Some(n) => Some(n@),
        None => None,
    }
}

/// What the outcome of forming an identifier stands for.
pub open spec fn identifier_outcome(r: Result<TokenIdentifier, NftError>) -> Result<
    TokenId,
    NftError,
> {
    match r {
        Ok(id) => Ok(id@),
        Err(e) => Err(e),
    }
}

/// The identifier of the next token to be minted.
///
/// In ordinal mode it is the number of tokens minted so far, and a supplied
/// name belongs to the other mode. In hash mode it is the supplied name,
/// which must be allowed and not empty, or else the content hash of the
/// metadata.
pub open spec fn next_identifier_spec(
    mode: IdentifierMode,
    minted: u64,
    metadata: Seq<u8>,
    name: Option<Seq<char>>,
    names_allowed: bool,
) -> Result<TokenId, NftError> {
    match mode {
        IdentifierMode::Ordinal => if name is Some {
            Err(NftError::InvalidIdentifierMode)
        } else {
            Ok(TokenId::Ordinal(minted))
        },
        IdentifierMode::Hash => match name {
            Some(n) => if names_allowed && n.len() > 0 {
                Ok(TokenId::Hash(n))
            } else {
                Err(NftError::InvalidTokenIdentifier)
            },
            None => Ok(TokenId::Hash(content_hash(metadata))),
        },
    }
}

/// Forms the identifier of the next token to be minted.
pub fn next_identifier(
    mode: IdentifierMode,
    minted: u64,
    metadata: &[u8],
    name: Option<String>,
    names_allowed: bool,
) -> (r: Result<TokenIdentifier, NftError>)
    ensures
        identifier_outcome(r) == next_identifier_spec(
            mode,
            minted,
            metadata@,
            name_view(name),
            names_allowed,
        ),
        r is Ok ==> r->Ok_0@.mode() == mode,
{
    match mode {
        IdentifierMode::Ordinal => match name {
            Some(_) => Err(NftError::InvalidIdentifierMode),
            None => Ok(TokenIdentifier::Ordinal(minted)),
        },
        IdentifierMode::Hash => match name {
            Some(n) => {
                if names_allowed && !n.as_str().is_empty() {
                    Ok(TokenIdentifier::Hash(n))
                } else {
                    Err(NftError::InvalidTokenIdentifier)
                }
            },
            None => Ok(TokenIdentifier::Hash(compute_content_hash(metadata))),
        },
    }
}

} // verus!
