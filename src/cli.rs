use vstd::prelude::*;
use vstd::string::*;

use crate::crypto::{hex_encode, hex_of};
use crate::matching::{strip_marker, strip_marker_str};
use crate::models::{Args, FoundAddress, KeyPair};

verus! {

/// The rule's part of a results file name.
pub open spec fn rule_text(prefix: Option<String>, suffix: Option<String>) -> Seq<char> {
    match (prefix, suffix) {
        (Some(p), Some(s)) => "prefix_"@ + p@ + "_suffix_"@ + s@,
        (Some(p), None) => "prefix_"@ + p@,
        (None, Some(s)) => "suffix_"@ + s@,
        (None, None) => "no_rule"@,
    }
}

pub open spec fn results_file_text(dir: Seq<char>, timestamp: Seq<char>, rule: Seq<char>) -> Seq<
    char,
> {
    dir + "/eth_addresses_"@ + timestamp + "_"@ + rule + ".json"@
}

pub open spec fn keystore_file_text(timestamp: Seq<char>, address: Seq<char>) -> Seq<char> {
    "UTC--"@ + timestamp + "--"@ + strip_marker(address)
}

/// Names the search criteria for a file name: `prefix_{p}_suffix_{s}`, `prefix_{p}`,
/// `suffix_{s}`, or `no_rule`.
pub fn create_rule(prefix: &Option<String>, suffix: &Option<String>) -> (r: String)
    ensures
        r@ == rule_text(*prefix, *suffix),
{
    let mut out = String::new();
    match prefix {
        Some(p) => {
            out.append("prefix_");
            out.append(p.as_str());
            if let Some(s) = suffix {
                out.append("_suffix_");
                out.append(s.as_str());
            }
        },
        None => match suffix {
            Some(s) => {
                out.append("suffix_");
                out.append(s.as_str());
            },
            None => {
                out.append("no_rule");
            },
        },
    }
    assert(out@ =~= rule_text(*prefix, *suffix));
    out
}

/// The path of a results file: `{dir}/eth_addresses_{timestamp}_{rule}.json`.
pub fn results_file_name(dir: &str, timestamp: &str, rule: &str) -> (r: String)
    ensures
        r@ == results_file_text(dir@, timestamp@, rule@),
{
    let mut out = String::from_str(dir);
    out.append("/eth_addresses_");
    out.append(timestamp);
    out.append("_");
    out.append(rule);
    out.append(".json");
    assert(out@ =~= results_file_text(dir@, timestamp@, rule@));
    out
}

/// Relies on chrono's `Local::now` formatted as `%Y%m%d_%H%M%S`: the local time now.
#[verifier::external_body]
fn local_timestamp() -> (r: String) {
    chrono::Local::now().format("%Y%m%d_%H%M%S").to_string()
}

/// The path of a results file named after the local time now.
pub fn generate_filename(dir: &str, rule: &str) -> (r: String)
    ensures
        exists|timestamp: Seq<char>| r@ == results_file_text(dir@, timestamp, rule@),
{
    let timestamp = local_timestamp();
    results_file_name(dir, timestamp.as_str(), rule)
}

/// The name of a keystore file: `UTC--{timestamp}--{address without 0x}`.
pub fn keystore_file_name(timestamp: &str, address: &str) -> (r: String)
    ensures
        r@ == keystore_file_text(timestamp@, address@),
{
    let mut out = String::from_str("UTC--");
    out.append(timestamp);
    out.append("--");
    out.append(strip_marker_str(address));
    assert(out@ =~= keystore_file_text(timestamp@, address@));
    out
}

/// The record of a found address: its secret key as hex and its address.
pub fn key_pair_of(found: &FoundAddress) -> (r: KeyPair)
    ensures
        r.private_key@ == hex_of(found.private_key@),
        r.public_address@ == found.address@,
{
    KeyPair {
        private_key: hex_encode(found.private_key.as_slice()),
        public_address: found.address.clone(),
    }
}

/// Why a keystore password is refused.
#[derive(Debug, Clone, Copy, PartialEq, Eq, Structural)]
pub enum PasswordError {
    Empty,
    Mismatch,
}

/// Accepts a password that is not empty and equals its confirmation.
pub fn check_password(password: String, confirmation: &String) -> (r: Result<
    String,
    PasswordError,
>)
    ensures
        password@.len() == 0 ==> r == Err::<String, PasswordError>(PasswordError::Empty),
        password@.len() > 0 && password@ != confirmation@ ==> r == Err::<String, PasswordError>(
            PasswordError::Mismatch,
        ),
        password@.len() > 0 && password@ == confirmation@ ==> r == Ok::<String, PasswordError>(
            password,
        ),
{
    if password.as_str().unicode_len() == 0 {
        return Err(PasswordError::Empty);
    }
    if password != *confirmation {
        return Err(PasswordError::Mismatch);
    }
    Ok(password)
}

pub open spec fn keystore_dir_text(args: Args) -> Option<Seq<char>> {
    if !args.keystore {
        None
    } else {
        match args.keystore_dir {
            Some(d) => Some(d@),
            None => Some(args.output_dir@ + "/keystore"@),
        }
    }
}

impl Args {
    /// The directory for keystore files in keystore mode: the one given, else
    /// `{output_dir}/keystore`; `None` outside keystore mode.
    pub fn keystore_directory(&self) -> (r: Option<String>)
        ensures
            match r {
                Some(d) => keystore_dir_text(*self) == Some(d@),
                None => keystore_dir_text(*self) is None,
            },
    {
        if !self.keystore {
            return None;
        }
        match &self.keystore_dir {
            Some(d) => Some(d.clone()),
            None => {
                let mut out = String::from_str(self.output_dir.as_str());
                out.append("/keystore");
                Some(out)
            },
        }
    }
}

} // verus!
