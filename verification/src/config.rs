//! The settings of a validator: where they lie, and what they are read as.

use crate::hex::{is_hex, is_hex_text};
use crate::primitives::Address;
use vstd::prelude::*;

verus! {

/// The three settings of one validator as a configuration source gives them:
/// text, not yet read as a key or an address.
#[derive(Debug)]
pub struct FetchConfig {
    pub private_key: String,
    pub address: String,
    pub url: String,
}

/// A signing credential: the private key as it was configured, and the
/// address that signs with it.
#[derive(Debug)]
pub struct Wallet {
    pub private_key: String,
    pub address: Address,
}

/// What a validator is made from: who signs, which contract is addressed,
/// and where the ledger is reached.
#[derive(Debug)]
pub struct ValidatorConfig {
    pub wallet: Wallet,
    pub address: Address,
    pub url: String,
}

/// The setting that could not be read.
#[derive(Clone, Copy, Debug, PartialEq, Eq)]
pub enum ConfigError {
    /// The private key is not a key.
    PrivateKey,
    /// The contract address is not an address.
    Address,
}

/// The address of the signer whose private key `private_key` spells, as its
/// 20 bytes; `None` where the text spells no private key.
pub uninterp spec fn signer_address(private_key: Seq<char>) -> Option<Seq<u8>>;

/// The 20 bytes of the address that `text` spells; `None` where the text
/// spells no address.
pub uninterp spec fn address_of_hex(text: Seq<char>) -> Option<Seq<u8>>;

/// `name` in snake case.
pub uninterp spec fn snake_case(name: Seq<char>) -> Seq<char>;

/// Calls `from_str` of `ethers::signers::Wallet` on the text, and `address`
/// on the wallet it gives. The call panics on text that is not hexadecimal,
/// which is left out. The contract claims that the outcome depends on the
/// text alone: whether it is read as a private key, and the address of the
/// wallet if it is.
#[verifier::external_body]
fn read_signer(private_key: &str) -> (r: Option<Address>)
    requires
        is_hex_text(private_key@),
    ensures
        match r {
            Some(address) => signer_address(private_key@) == Some(address.bytes@),
            None => signer_address(private_key@) is None,
        },
{
    match private_key.parse::<ethers::signers::Wallet>() {
        Ok(wallet) => Some(Address { bytes: ethers::signers::Signer::address(&wallet).0 }),
        Err(_) => None,
    }
}

/// Calls `from_str` of `ethers::core::types::Address` on the text. The contract
/// claims that the outcome depends on the text alone: whether it is read as
/// an address, and the bytes of the address if it is.
#[verifier::external_body]
fn read_address(text: &str) -> (r: Option<Address>)
    ensures
        match r {
            Some(address) => address_of_hex(text@) == Some(address.bytes@),
            None => address_of_hex(text@) is None,
        },
{
    match text.parse::<ethers::core::types::Address>() {
        Ok(address) => Some(Address { bytes: address.0 }),
        Err(_) => None,
    }
}

/// Calls `inflector::cases::snakecase::to_snake_case`. The contract claims
/// that the result depends on the name alone. The call reserves twice the
/// name's length in bytes; names too long for that are left out.
#[verifier::external_body]
fn to_snake_case(name: &str) -> (r: String)
    requires
        name.len() <= usize::MAX / 4,
    ensures
        r@ == snake_case(name@),
{
    inflector::cases::snakecase::to_snake_case(name)
}

/// `String::push_str` appends the text to the string.
pub assume_specification[ std::string::String::push_str ](
    s: &mut std::string::String,
    string: &str,
)
    ensures
        final(s)@ == old(s)@ + string@,
;

impl FetchConfig {
    pub fn new(private_key: String, address: String, url: String) -> (c: FetchConfig)
        ensures
            c.private_key == private_key,
            c.address == address,
            c.url == url,
    {
        FetchConfig { private_key, address, url }
    }

    /// What the settings stand for, given the signer that the private key
    /// was read as and the address that the contract address was read as.
    /// The private key is looked at first.
    pub open spec fn resolved(
        &self,
        signer: Option<Seq<u8>>,
        target: Option<Seq<u8>>,
        r: Result<ValidatorConfig, ConfigError>,
    ) -> bool {
        match (signer, target) {
            (None, _) => r == Err::<ValidatorConfig, ConfigError>(ConfigError::PrivateKey),
            (Some(_), None) => r == Err::<ValidatorConfig, ConfigError>(ConfigError::Address),
            (Some(signer), Some(target)) => {
                &&& r is Ok
                &&& r->Ok_0.wallet.private_key == self.private_key
                &&& r->Ok_0.wallet.address.bytes@ == signer
                &&& r->Ok_0.address.bytes@ == target
                &&& r->Ok_0.url == self.url
            },
        }
    }

    /// Puts a validator's configuration together from the settings and from
    /// what the private key and the contract address were read as.
    pub fn resolve_with(&self, signer: Option<Address>, target: Option<Address>) -> (r: Result<
        ValidatorConfig,
        ConfigError,
    >)
        ensures
            self.resolved(
                match signer {
                    Some(a) => Some(a.bytes@),
                    None => None,
                },
                match target {
                    Some(a) => Some(a.bytes@),
                    None => None,
                },
                r,
            ),
    {
        let signer = match signer {
            Some(signer) => signer,
            None => {
                return Err(ConfigError::PrivateKey);
            },
        };
        let target = match target {
            Some(target) => target,
            None => {
                return Err(ConfigError::Address);
            },
        };
        let wallet = Wallet { private_key: self.private_key.clone(), address: signer };
        Ok(ValidatorConfig { wallet, address: target, url: self.url.clone() })
    }

    /// The signer that the private key is read as: none where the text is
    /// not hexadecimal, which is not tried as a key.
    pub open spec fn signer(&self) -> Option<Seq<u8>> {
        if is_hex_text(self.private_key@) {
            signer_address(self.private_key@)
        } else {
            None
        }
    }

    /// Reads the private key and the contract address, and puts the
    /// validator's configuration together.
    pub fn resolve(&self) -> (r: Result<ValidatorConfig, ConfigError>)
        ensures
            self.resolved(self.signer(), address_of_hex(self.address@), r),
    {
        let signer = if is_hex(self.private_key.as_str()) {
            read_signer(self.private_key.as_str())
        } else {
            None
        };
        let target = read_address(self.address.as_str());
        self.resolve_with(signer, target)
    }
}

impl Clone for Wallet {
    fn clone(&self) -> (w: Wallet)
        ensures
            w == *self,
    {
        Wallet { private_key: self.private_key.clone(), address: self.address }
    }
}

impl ValidatorConfig {
    pub fn new(wallet: &Wallet, addr: &Address, url: &str) -> (c: ValidatorConfig)
        ensures
            c.wallet == *wallet,
            c.address == *addr,
            c.url@ == url@,
    {
        ValidatorConfig { wallet: wallet.clone(), address: *addr, url: url.to_owned() }
    }
}

/// The directory in which the settings of the validators lie.
pub open spec fn config_dir() -> Seq<char> {
    "config/default/"@
}

/// The path of the settings of the validator whose name in snake case is
/// `snake_name`.
pub fn config_path_of(snake_name: &str) -> (path: String)
    ensures
        path@ == config_dir() + snake_name@,
{
    let mut path = "config/default/".to_owned();
    path.push_str(snake_name);
    path
}

/// The path of the settings of the validator of the given type name: the
/// name in snake case, in the settings directory. Nothing for a name that is
/// too long to be converted.
pub fn config_path(validator_name: &str) -> (path: Option<String>)
    ensures
        path is Some <==> validator_name.len() <= usize::MAX / 4,
        path matches Some(p) ==> p@ == config_dir() + snake_case(validator_name@),
{
    if validator_name.len() > usize::MAX / 4 {
        return None;
    }
    let snake_name = to_snake_case(validator_name);
    Some(config_path_of(snake_name.as_str()))
}

} // verus!
