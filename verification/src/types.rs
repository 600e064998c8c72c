use vstd::prelude::*;
use vstd::string::StringSliceAdditionalSpecFns;
use vstd::utf8::encode_utf8;

use crate::amount::U256;
use crate::error::Error;
use crate::hex_str::{decode_prefix_hex, hex_decoded, is_prefix_hex};

verus! {

/// Whether the string bytes `b` are a `0x`-prefixed hexadecimal
/// encoding of exactly `n` bytes.
pub open spec fn is_hex_of_len(b: Seq<u8>, n: nat) -> bool {
    is_prefix_hex(b) && b.len() == 2 + 2 * n
}

/// Whether `e` is the error that decoding the string with characters
/// `cs` as a `0x`-prefixed hexadecimal identifier of `n` bytes must
/// report.
pub open spec fn id_error_spec(cs: Seq<char>, n: nat, e: Error) -> bool {
    match e {
        Error::Hex(he) => crate::hex_str::hex_error_spec(cs, he),
        Error::InvalidIdLength { expected, actual } => is_prefix_hex(encode_utf8(cs)) && expected
            == n && actual == (encode_utf8(cs).len() - 2) / 2 && actual != n,
        _ => false,
    }
}

/// Decodes a `0x`-prefixed hexadecimal identifier of exactly
/// `expected` bytes.
fn parse_id_bytes(s: &str, expected: usize) -> (r: Result<Vec<u8>, Error>)
    ensures
        (match r {
            Ok(v) => is_hex_of_len(s.spec_bytes(), expected as nat) && v@ == hex_decoded(
                s.spec_bytes().skip(2),
            ),
            Err(e) => id_error_spec(s@, expected as nat, e),
        }),
{
    match decode_prefix_hex(s) {
        Err(e) => Err(Error::Hex(e)),
        Ok(v) => {
            if v.len() != expected {
                Err(Error::InvalidIdLength { expected, actual: v.len() })
            } else {
                Ok(v)
            }
        },
    }
}

/// The identifier of a native token: 38 bytes.
#[derive(Clone, Debug, PartialEq, Eq)]
pub struct TokenId {
    pub bytes: Vec<u8>,
}

impl TokenId {
    /// Well-formedness: the identifier holds exactly 38 bytes.
    pub open spec fn wf(self) -> bool {
        self.bytes@.len() == 38
    }

    /// Reads a token identifier from its `0x`-prefixed hexadecimal
    /// form: the prefix and then exactly 76 hexadecimal digits.
    pub fn parse(s: &str) -> (r: Result<TokenId, Error>)
        ensures
            (match r {
                Ok(t) => t.wf() && is_hex_of_len(s.spec_bytes(), 38) && t.bytes@ == hex_decoded(
                    s.spec_bytes().skip(2),
                ),
                Err(e) => id_error_spec(s@, 38, e),
            }),
    {
        match parse_id_bytes(s, 38) {
            Ok(v) => Ok(TokenId { bytes: v }),
            Err(e) => Err(e),
        }
    }
}

/// The identifier of an NFT: 32 bytes.
#[derive(Clone, Debug, PartialEq, Eq)]
pub struct NftId {
    pub bytes: Vec<u8>,
}

impl NftId {
    /// Well-formedness: the identifier holds exactly 32 bytes.
    pub open spec fn wf(self) -> bool {
        self.bytes@.len() == 32
    }

    /// Reads an NFT identifier from its `0x`-prefixed hexadecimal
    /// form: the prefix and then exactly 64 hexadecimal digits.
    pub fn parse(s: &str) -> (r: Result<NftId, Error>)
        ensures
            (match r {
                Ok(t) => t.wf() && is_hex_of_len(s.spec_bytes(), 32) && t.bytes@ == hex_decoded(
                    s.spec_bytes().skip(2),
                ),
                Err(e) => id_error_spec(s@, 32, e),
            }),
    {
        match parse_id_bytes(s, 32) {
            Ok(v) => Ok(NftId { bytes: v }),
            Err(e) => Err(e),
        }
    }
}

/// A transfer of a plain amount to one bech32-encoded address.
#[derive(Clone, Debug, PartialEq, Eq)]
pub struct AddressWithAmount {
    pub address: String,
    pub amount: u64,
}

/// A transfer below the storage deposit minimum to one address.
#[derive(Clone, Debug, PartialEq, Eq)]
pub struct AddressWithMicroAmount {
    pub address: String,
    pub amount: u64,
    pub return_address: Option<String>,
    pub expiration: Option<u32>,
}

/// A transfer of native tokens to one address.
#[derive(Clone, Debug, PartialEq, Eq)]
pub struct AddressNativeTokens {
    pub address: String,
    pub native_tokens: Vec<(TokenId, U256)>,
    pub return_address: Option<String>,
    pub expiration: Option<u32>,
}

/// A transfer of one NFT to one address.
#[derive(Clone, Debug, PartialEq, Eq)]
pub struct AddressAndNftId {
    pub address: String,
    pub nft_id: NftId,
}

/// The request that mints a native token.
#[derive(Clone, Debug, PartialEq, Eq)]
pub struct NativeTokenOptions {
    pub account_address: Option<String>,
    pub circulating_supply: U256,
    pub maximum_supply: U256,
    pub foundry_metadata: Option<Vec<u8>>,
}

/// The request that mints one NFT.
#[derive(Clone, Debug, PartialEq, Eq)]
pub struct NftOptions {
    pub address: Option<String>,
    pub immutable_metadata: Option<Vec<u8>>,
    pub metadata: Option<Vec<u8>>,
}

/// A faucet request: the faucet endpoint and the receiving address.
#[derive(Clone, Debug, PartialEq, Eq)]
pub struct FaucetRequest {
    pub url: String,
    pub address: String,
}

/// One known address of the account.
#[derive(Clone, Debug, PartialEq, Eq)]
pub struct AccountAddress {
    pub address: String,
    pub key_index: u32,
    pub internal: bool,
}

/// One address of the account that still has unspent outputs.
#[derive(Clone, Debug, PartialEq, Eq)]
pub struct AddressWithUnspentOutputs {
    pub address: String,
    pub key_index: u32,
    pub internal: bool,
    pub amount: u64,
    pub output_ids: Vec<String>,
}

} // verus!
