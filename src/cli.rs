//! The configuration of a run: the account, the endpoint, the TTL ceiling and
//! the domains with the subdomains to manage.

use vstd::prelude::*;
use crate::errors::Errors;
use crate::text::{first_index, find_char, split_on, split_trimmed, trim_text, trimmed};

verus! {

/// A domain and the subdomains whose address records are managed, written
/// `domain: sub, sub, ...` or `domain` alone.
pub struct DNSEntry {
    pub domain: String,
    pub sub_domains: Vec<String>,
}

/// What the entry text `s` describes, where it is not empty.
pub open spec fn is_entry_of(e: DNSEntry, s: Seq<char>) -> bool {
    match first_index(s, ':') {
        Some(k) => {
            let pieces = split_on(s.subrange(k + 1, s.len() as int), ',');
            &&& e.domain@ == trimmed(s.subrange(0, k))
            &&& e.sub_domains@.len() == pieces.len()
            &&& forall|i: int|
                0 <= i < pieces.len() ==> (#[trigger] e.sub_domains@[i])@ == trimmed(pieces[i])
        },
        None => e.domain@ == trimmed(s) && e.sub_domains@.len() == 0,
    }
}

impl DNSEntry {
    /// Reads an entry: the domain before the first `:`, the subdomains after
    /// it separated by `,`, each without surrounding white space.
    pub fn parse(s: &str) -> (r: Result<DNSEntry, Errors>)
        ensures
            s@.len() == 0 ==> r == Err::<DNSEntry, Errors>(Errors::SerializeDomains),
            s@.len() > 0 ==> (r matches Ok(e) && is_entry_of(e, s@)),
    {
        let n = s.unicode_len();
        if n == 0 {
            return Err(Errors::SerializeDomains);
        }
        match find_char(s, ':') {
            Some(k) => {
                proof {
                    lemma_first_index_bound(s@, ':');
                }
                let domain = trim_text(s.substring_char(0, k)).to_string();
                let sub_domains = split_trimmed(s.substring_char(k + 1, n), ',');
                Ok(DNSEntry { domain, sub_domains })
            },
            None => Ok(DNSEntry { domain: trim_text(s).to_string(), sub_domains: Vec::new() }),
        }
    }

    pub fn domain(&self) -> (r: &str)
        ensures
            r@ == self.domain@,
    {
        self.domain.as_str()
    }

    pub fn sub_domains(&self) -> (r: &Vec<String>)
        ensures
            r@ == self.sub_domains@,
    {
        &self.sub_domains
    }
}

proof fn lemma_first_index_bound(s: Seq<char>, c: char)
    ensures
        first_index(s, c) matches Some(k) ==> 0 <= k < s.len(),
    decreases s.len(),
{
    if s.len() > 0 {
        lemma_first_index_bound(s.drop_first(), c);
    }
}

impl core::str::FromStr for DNSEntry {
    type Err = Errors;

    fn from_str(s: &str) -> Result<DNSEntry, Errors> {
        DNSEntry::parse(s)
    }
}

/// The settings of a run.
pub struct Cli {
    pub customer_number: u32,
    pub api_url: String,
    pub api_key: String,
    pub api_password: String,
    /// The TTL to set on a zone whose TTL is too long for dynamic DNS.
    pub ttl: Option<u32>,
    pub domains: Vec<DNSEntry>,
}

impl Cli {
    pub fn customer_number(&self) -> (r: u32)
        ensures
            r == self.customer_number,
    {
        self.customer_number
    }

    pub fn api_url(&self) -> (r: &str)
        ensures
            r@ == self.api_url@,
    {
        self.api_url.as_str()
    }

    pub fn api_key(&self) -> (r: &str)
        ensures
            r@ == self.api_key@,
    {
        self.api_key.as_str()
    }

    pub fn api_password(&self) -> (r: &str)
        ensures
            r@ == self.api_password@,
    {
        self.api_password.as_str()
    }

    pub fn domains(&self) -> (r: &Vec<DNSEntry>)
        ensures
            r@ == self.domains@,
    {
        &self.domains
    }

    pub fn ttl(&self) -> (r: Option<u32>)
        ensures
            r == self.ttl,
    {
        self.ttl
    }
}

} // verus!
