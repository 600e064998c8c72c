use vstd::prelude::*;

verus! {

/// The top-level command line: an optional wallet-level command and an
/// optional account to enter.
#[derive(Clone, Debug)]
pub struct AccountManagerCli {
    pub command: Option<AccountManagerCommand>,
    pub account: Option<String>,
}

/// The wallet-level commands.
#[derive(Clone, Debug)]
pub enum AccountManagerCommand {
    /// Initialize the wallet with a mnemonic and node url; without
    /// them a fresh mnemonic and the local node are used.
    Init(MnemonicAndUrl),
    /// Create a new account with an optional alias.
    New { alias: Option<String> },
    /// Set the node to use.
    SetNode { url: String },
    /// Sync all accounts.
    Sync,
}

/// The optional mnemonic and node url of the `init` command.
#[derive(Clone, Debug)]
pub struct MnemonicAndUrl {
    pub mnemonic: Option<String>,
    pub node: Option<String>,
}

/// The node that the wallet talks to when none is named.
pub fn default_node_url() -> (r: String)
    ensures
        r@ == "http://localhost:14265"@,
{
    "http://localhost:14265".to_owned()
}

/// The node url that initialization uses: the given one, or the
/// local default.
pub fn resolve_node_url(node: Option<String>) -> (r: String)
    ensures
        (match node {
            Some(u) => r == u,
            None => r@ == "http://localhost:14265"@,
        }),
{
    match node {
        Some(u) => u,
        None => default_node_url(),
    }
}

/// The mnemonic that initialization stores: the given one, or the
/// freshly generated one.
pub fn resolve_mnemonic(mnemonic: Option<String>, generated: String) -> (r: String)
    ensures
        (match mnemonic {
            Some(m) => r == m,
            None => r == generated,
        }),
{
    match mnemonic {
        Some(m) => m,
        None => generated,
    }
}

} // verus!
