use vstd::prelude::*;
use vstd::utf8::encode_utf8;

use crate::amount::{dec_str_error_spec, dec_str_ok_spec, dec_value, U256};
use crate::error::Error;
use crate::hex_str::{decode_prefix_hex, hex_decoded, hex_error_spec, is_prefix_hex};
use crate::types::{
    AccountAddress, AddressAndNftId, AddressNativeTokens, AddressWithAmount,
    AddressWithMicroAmount, AddressWithUnspentOutputs, FaucetRequest, id_error_spec, is_hex_of_len,
    NativeTokenOptions, NftId, NftOptions, TokenId,
};

verus! {

/// The command line of the account prompt.
#[derive(Clone, Debug)]
pub struct AccountCli {
    pub command: AccountCommand,
}

/// The commands of the account prompt.
#[derive(Clone, Debug)]
pub enum AccountCommand {
    /// List the account addresses.
    Addresses,
    /// Print the account balance.
    Balance,
    /// Consolidate all basic outputs into one address.
    Consolidate,
    /// Exit from the account prompt.
    Exit,
    /// Request funds from the faucet to the latest address.
    Faucet { url: Option<String>, address: Option<String> },
    /// Mint a native token with a maximum supply and optional foundry
    /// metadata given as a `0x`-prefixed hexadecimal string.
    MintNativeToken { maximum_supply: String, foundry_metadata: Option<String> },
    /// Mint an NFT to an optional bech32-encoded address.
    MintNft { address: Option<String>, immutable_metadata: Option<String>, metadata: Option<String> },
    /// Generate a new address.
    NewAddress,
    /// Send an amount to a bech32-encoded address.
    Send { address: String, amount: u64 },
    /// Send an amount below the storage deposit minimum.
    SendMicro { address: String, amount: u64 },
    /// Send native tokens to a bech32-encoded address.
    SendNativeToken { address: String, token_id: String, amount: String },
    /// Send an NFT to a bech32-encoded address.
    SendNft { address: String, nft_id: String },
    /// Sync the account with the ledger.
    Sync,
    /// List the account transactions.
    Transactions,
}

/// Decides where a faucet request goes: to the given address, or to
/// the last known one, and to the given faucet endpoint, or to the
/// local default.
pub fn prepare_faucet_request(
    url: Option<String>,
    address: Option<String>,
    last_known_address: Option<String>,
) -> (r: Result<FaucetRequest, Error>)
    ensures
        (match r {
            Ok(req) => (match address {
                Some(a) => req.address == a,
                None => (match last_known_address {
                    Some(l) => req.address == l,
                    None => false,
                }),
            }) && (match url {
                Some(u) => req.url == u,
                None => req.url@ == "http://localhost:14265/api/plugins/faucet/v1/enqueue"@,
            }),
            Err(e) => e == Error::NoAddressForFaucet && address is None && last_known_address
                is None,
        }),
{
    let target = match address {
        Some(a) => a,
        None => match last_known_address {
            Some(l) => l,
            None => {
                return Err(Error::NoAddressForFaucet);
            },
        },
    };
    let faucet_url = match url {
        Some(u) => u,
        None => "http://localhost:14265/api/plugins/faucet/v1/enqueue".to_owned(),
    };
    Ok(FaucetRequest { url: faucet_url, address: target })
}

/// Builds the request that mints a native token: the maximum supply is
/// read as a 256-bit decimal number and doubles as the circulating
/// supply; the foundry metadata, when given, is decoded from
/// `0x`-prefixed hexadecimal.
pub fn prepare_mint_native_token(
    maximum_supply: String,
    foundry_metadata: Option<String>,
) -> (r: Result<NativeTokenOptions, Error>)
    ensures
        (match r {
            Ok(o) => dec_str_ok_spec(encode_utf8(maximum_supply@)) && o.circulating_supply.value()
                == dec_value(encode_utf8(maximum_supply@)) && o.maximum_supply
                == o.circulating_supply && o.account_address is None && (match foundry_metadata {
                None => o.foundry_metadata is None,
                Some(m) => is_prefix_hex(encode_utf8(m@)) && (match o.foundry_metadata {
                    Some(v) => v@ == hex_decoded(encode_utf8(m@).skip(2)),
                    None => false,
                }),
            }),
            Err(Error::Amount(e)) => dec_str_error_spec(encode_utf8(maximum_supply@), e),
            Err(Error::Hex(e)) => dec_str_ok_spec(encode_utf8(maximum_supply@)) && (
            match foundry_metadata {
                Some(m) => hex_error_spec(m@, e),
                None => false,
            }),
            Err(_) => false,
        }),
{
    let supply = match U256::from_dec_str(maximum_supply.as_str()) {
        Ok(u) => u,
        Err(e) => {
            return Err(Error::Amount(e));
        },
    };
    let metadata = match foundry_metadata {
        None => None,
        Some(m) => match decode_prefix_hex(m.as_str()) {
            Ok(v) => Some(v),
            Err(e) => {
                return Err(Error::Hex(e));
            },
        },
    };
    Ok(
        NativeTokenOptions {
            account_address: None,
            circulating_supply: supply,
            maximum_supply: supply,
            foundry_metadata: metadata,
        },
    )
}

/// Builds the single minting request of the `mint-nft` command: the
/// metadata strings travel on as their UTF-8 bytes.
pub fn prepare_mint_nft(
    address: Option<String>,
    immutable_metadata: Option<String>,
    metadata: Option<String>,
) -> (r: Vec<NftOptions>)
    ensures
        r@.len() == 1,
        r@[0].address == address,
        (match immutable_metadata {
            None => r@[0].immutable_metadata is None,
            Some(m) => (match r@[0].immutable_metadata {
                Some(v) => v@ == encode_utf8(m@),
                None => false,
            }),
        }),
        (match metadata {
            None => r@[0].metadata is None,
            Some(m) => (match r@[0].metadata {
                Some(v) => v@ == encode_utf8(m@),
                None => false,
            }),
        }),
{
    let immutable_bytes = match immutable_metadata {
        None => None,
        Some(m) => Some(vstd::slice::slice_to_vec(m.as_str().as_bytes())),
    };
    let metadata_bytes = match metadata {
        None => None,
        Some(m) => Some(vstd::slice::slice_to_vec(m.as_str().as_bytes())),
    };
    let mut options: Vec<NftOptions> = Vec::new();
    options.push(
        NftOptions { address, immutable_metadata: immutable_bytes, metadata: metadata_bytes },
    );
    options
}

/// Builds the single output of the `send` command.
pub fn prepare_send(address: String, amount: u64) -> (r: Vec<AddressWithAmount>)
    ensures
        r@.len() == 1,
        r@[0].address == address,
        r@[0].amount == amount,
{
    let mut outputs: Vec<AddressWithAmount> = Vec::new();
    outputs.push(AddressWithAmount { address, amount });
    outputs
}

/// Builds the single output of the `send-micro` command, with no
/// return address and no expiration.
pub fn prepare_send_micro(address: String, amount: u64) -> (r: Vec<AddressWithMicroAmount>)
    ensures
        r@.len() == 1,
        r@[0].address == address,
        r@[0].amount == amount,
        r@[0].return_address is None,
        r@[0].expiration is None,
{
    let mut outputs: Vec<AddressWithMicroAmount> = Vec::new();
    outputs.push(
        AddressWithMicroAmount { address, amount, return_address: None, expiration: None },
    );
    outputs
}

/// Builds the single output of the `send-native` command: the token
/// identifier is decoded from hexadecimal and the amount is read as a
/// 256-bit decimal number; a bad identifier wins over a bad amount.
pub fn prepare_send_native_token(
    address: String,
    token_id: String,
    amount: String,
) -> (r: Result<Vec<AddressNativeTokens>, Error>)
    ensures
        (match r {
            Ok(v) => is_hex_of_len(encode_utf8(token_id@), 38) && dec_str_ok_spec(
                encode_utf8(amount@),
            ) && v@.len() == 1 && v@[0].address == address && v@[0].native_tokens@.len() == 1
                && v@[0].native_tokens@[0].0.bytes@ == hex_decoded(
                encode_utf8(token_id@).skip(2),
            ) && v@[0].native_tokens@[0].1.value() == dec_value(encode_utf8(amount@))
                && v@[0].return_address is None && v@[0].expiration is None,
            Err(Error::Amount(e)) => is_hex_of_len(encode_utf8(token_id@), 38)
                && dec_str_error_spec(encode_utf8(amount@), e),
            Err(e) => id_error_spec(token_id@, 38, e),
        }),
{
    let tid = match TokenId::parse(token_id.as_str()) {
        Ok(t) => t,
        Err(e) => {
            return Err(e);
        },
    };
    let amt = match U256::from_dec_str(amount.as_str()) {
        Ok(u) => u,
        Err(e) => {
            return Err(Error::Amount(e));
        },
    };
    let mut tokens: Vec<(TokenId, U256)> = Vec::new();
    tokens.push((tid, amt));
    let mut outputs: Vec<AddressNativeTokens> = Vec::new();
    outputs.push(
        AddressNativeTokens { address, native_tokens: tokens, return_address: None, expiration: None },
    );
    Ok(outputs)
}

/// Builds the single output of the `send-nft` command: the NFT
/// identifier is decoded from hexadecimal.
pub fn prepare_send_nft(address: String, nft_id: String) -> (r: Result<Vec<AddressAndNftId>, Error>)
    ensures
        (match r {
            Ok(v) => is_hex_of_len(encode_utf8(nft_id@), 32) && v@.len() == 1 && v@[0].address
                == address && v@[0].nft_id.bytes@ == hex_decoded(encode_utf8(nft_id@).skip(2)),
            Err(e) => id_error_spec(nft_id@, 32, e),
        }),
{
    let nid = match NftId::parse(nft_id.as_str()) {
        Ok(n) => n,
        Err(e) => {
            return Err(e);
        },
    };
    let mut outputs: Vec<AddressAndNftId> = Vec::new();
    outputs.push(AddressAndNftId { address, nft_id: nid });
    Ok(outputs)
}

/// Strict order on the search keys of the unspent-output listing:
/// by key index, and an ordinary address before a change address.
pub open spec fn key_lt(k0: u32, i0: bool, k1: u32, i1: bool) -> bool {
    k0 < k1 || (k0 == k1 && !i0 && i1)
}

/// Whether the unspent-output listing is sorted by key index and
/// change flag, as the wallet hands it out.
pub open spec fn sorted_by_key(s: Seq<AddressWithUnspentOutputs>) -> bool {
    forall|i: int, j: int|
        0 <= i < j < s.len() ==> !key_lt(
            #[trigger] s[j].key_index,
            s[j].internal,
            #[trigger] s[i].key_index,
            s[i].internal,
        )
}

proof fn lemma_key_le_span(s: Seq<AddressWithUnspentOutputs>, i: int, j: int)
    requires
        forall|k: int|
            0 <= k < s.len() - 1 ==> !key_lt(
                #[trigger] s[k + 1].key_index,
                s[k + 1].internal,
                s[k].key_index,
                s[k].internal,
            ),
        0 <= i < j < s.len(),
    ensures
        !key_lt(s[j].key_index, s[j].internal, s[i].key_index, s[i].internal),
    decreases j - i,
{
    if i + 1 < j {
        lemma_key_le_span(s, i, j - 1);
        let k: int = j - 1;
        assert(!key_lt(s[k + 1].key_index, s[k + 1].internal, s[k].key_index, s[k].internal));
    } else {
        assert(!key_lt(s[i + 1].key_index, s[i + 1].internal, s[i].key_index, s[i].internal));
    }
}

/// Checks that the unspent-output listing is sorted by key index and
/// change flag.
pub fn is_sorted_by_key(unspent: &Vec<AddressWithUnspentOutputs>) -> (r: bool)
    ensures
        r == sorted_by_key(unspent@),
{
    let n = unspent.len();
    if n == 0 {
        return true;
    }
    let mut i: usize = 0;
    while i < n - 1
        invariant
            n == unspent@.len(),
            1 <= n,
            i <= n - 1,
            forall|k: int|
                0 <= k < i ==> !key_lt(
                    #[trigger] unspent@[k + 1].key_index,
                    unspent@[k + 1].internal,
                    unspent@[k].key_index,
                    unspent@[k].internal,
                ),
        decreases n - 1 - i,
    {
        let k0 = unspent[i].key_index;
        let i0 = unspent[i].internal;
        let k1 = unspent[i + 1].key_index;
        let i1 = unspent[i + 1].internal;
        if k1 < k0 || (k1 == k0 && !i1 && i0) {
            return false;
        }
        i = i + 1;
    }
    proof {
        assert forall|a: int, b: int| 0 <= a < b < unspent@.len() implies !key_lt(
            unspent@[b].key_index,
            unspent@[b].internal,
            unspent@[a].key_index,
            unspent@[a].internal,
        ) by {
            lemma_key_le_span(unspent@, a, b);
        }
    }
    true
}

/// What a lookup in the unspent-output listing must return: the index
/// of an entry whose key index and change flag match, or nothing when
/// no entry matches.
pub open spec fn find_result_spec(
    key_index: u32,
    internal: bool,
    s: Seq<AddressWithUnspentOutputs>,
    r: Option<usize>,
) -> bool {
    match r {
        Some(i) => i < s.len() && s[i as int].key_index == key_index && s[i as int].internal
            == internal,
        None => forall|i: int|
            0 <= i < s.len() ==> !(#[trigger] s[i].key_index == key_index && s[i].internal
                == internal),
    }
}

/// Looks up, by binary search, the entry of the sorted unspent-output
/// listing whose key index and change flag match the given address.
pub fn find_unspent(
    key_index: u32,
    internal: bool,
    unspent: &Vec<AddressWithUnspentOutputs>,
) -> (r: Option<usize>)
    requires
        sorted_by_key(unspent@),
    ensures
        find_result_spec(key_index, internal, unspent@, r),
{
    let mut lo: usize = 0;
    let mut hi: usize = unspent.len();
    while lo < hi
        invariant
            lo <= hi <= unspent@.len(),
            sorted_by_key(unspent@),
            forall|i: int|
                0 <= i < lo ==> key_lt(
                    #[trigger] unspent@[i].key_index,
                    unspent@[i].internal,
                    key_index,
                    internal,
                ),
            forall|i: int|
                hi <= i < unspent@.len() ==> key_lt(
                    key_index,
                    internal,
                    #[trigger] unspent@[i].key_index,
                    unspent@[i].internal,
                ),
        decreases hi - lo,
    {
        let mid = lo + (hi - lo) / 2;
        let ek = unspent[mid].key_index;
        let ei = unspent[mid].internal;
        if ek < key_index || (ek == key_index && !ei && internal) {
            lo = mid + 1;
        } else if key_index < ek || (ek == key_index && ei && !internal) {
            hi = mid;
        } else {
            return Some(mid);
        }
    }
    None
}


/// Looks up the unspent-output entry of every account address in
/// turn, as the address listing does for each address it prints.
pub fn find_unspent_for_all(
    addresses: &Vec<AccountAddress>,
    unspent: &Vec<AddressWithUnspentOutputs>,
) -> (r: Vec<Option<usize>>)
    requires
        sorted_by_key(unspent@),
    ensures
        r@.len() == addresses@.len(),
        forall|k: int|
            0 <= k < addresses@.len() ==> find_result_spec(
                (#[trigger] addresses@[k]).key_index,
                addresses@[k].internal,
                unspent@,
                r@[k],
            ),
{
    let mut results: Vec<Option<usize>> = Vec::new();
    let mut k: usize = 0;
    while k < addresses.len()
        invariant
            sorted_by_key(unspent@),
            k == results@.len(),
            k <= addresses@.len(),
            forall|j: int|
                0 <= j < k ==> find_result_spec(
                    (#[trigger] addresses@[j]).key_index,
                    addresses@[j].internal,
                    unspent@,
                    results@[j],
                ),
        decreases addresses@.len() - k,
    {
        let found = find_unspent(addresses[k].key_index, addresses[k].internal, unspent);
        results.push(found);
        k = k + 1;
    }
    results
}

} // verus!
