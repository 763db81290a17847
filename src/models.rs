use vstd::prelude::*;

verus! {

/// A secret key with the address derived from it, as the search hands it back.
pub struct FoundAddress {
    pub private_key: [u8; 32],
    pub address: String,
}

/// A secret key, as hex, with its public address.
#[derive(Debug)]
pub struct KeyPair {
    pub private_key: String,
    pub public_address: String,
}

/// A public address with the path of the keystore file that holds its key.
#[derive(Debug)]
pub struct PublicAddressEntry {
    pub public_address: String,
    pub keystore_file: String,
}

/// The key pairs found by one search, with when and under which rule.
#[derive(Debug)]
pub struct Results {
    pub timestamp: String,
    pub rule: String,
    pub key_pairs: Vec<KeyPair>,
}

/// The addresses found by one search in keystore mode: no secret keys.
#[derive(Debug)]
pub struct KeystoreResults {
    pub timestamp: String,
    pub rule: String,
    pub addresses: Vec<PublicAddressEntry>,
}

/// The options of one run of the finder.
#[derive(Debug)]
pub struct Args {
    pub prefix: Option<String>,
    pub suffix: Option<String>,
    pub count: usize,
    pub output_dir: String,
    pub keystore: bool,
    pub keystore_dir: Option<String>,
    pub threads: usize,
}

} // verus!
