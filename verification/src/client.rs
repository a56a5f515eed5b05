//! What a client says of itself: a session identifier, an account, an
//! optional password digest, and the addresses it was seen at.

use crypto::digest::Digest;
use vstd::prelude::*;
use vstd::string::*;

verus! {

/// An address as its octets in network order.
#[derive(Clone, Copy, Debug, PartialEq, Eq, Hash)]
pub enum IpAddress {
    V4([u8; 4]),
    V6([u8; 16]),
}

/// One client's claimed identity and location.
///
/// `id` names a session, not the account; `passwd` holds a digest, never
/// the plaintext, and its absence means that anybody may read the
/// account's presence. The address lists only grow and keep duplicates.
#[derive(Debug, PartialEq, Eq, Hash)]
pub struct ClientInfo {
    pub id: u128,
    pub account: String,
    pub passwd: Option<String>,
    pub ipv4s: Vec<[u8; 4]>,
    pub ipv6s: Vec<[u8; 16]>,
}

/// The mathematical value of a [`ClientInfo`].
pub struct ClientInfoView {
    pub id: u128,
    pub account: Seq<char>,
    pub passwd: Option<Seq<char>>,
    pub ipv4s: Seq<[u8; 4]>,
    pub ipv6s: Seq<[u8; 16]>,
}

/// The characters of an optional string.
pub open spec fn opt_text(s: Option<String>) -> Option<Seq<char>> {
    match s {
        Some(t) => Some(t@),
        None => None,
    }
}

impl View for ClientInfo {
    type V = ClientInfoView;

    open spec fn view(&self) -> ClientInfoView {
        ClientInfoView {
            id: self.id,
            account: self.account@,
            passwd: opt_text(self.passwd),
            ipv4s: self.ipv4s@,
            ipv6s: self.ipv6s@,
        }
    }
}

/// The lower-case hexadecimal SHA-256 digest of the UTF-8 bytes of `plaintext`.
pub uninterp spec fn sha256_hex(plaintext: Seq<char>) -> Seq<char>;

/// The digest that a record carries for a configured password.
pub open spec fn digest_of(passwd_plaintext: Option<Seq<char>>) -> Option<Seq<char>> {
    match passwd_plaintext {
        Some(p) => Some(sha256_hex(p)),
        None => None,
    }
}

/// The IPv4 addresses of `ips`, in order.
pub open spec fn v4_addresses(ips: Seq<IpAddress>) -> Seq<[u8; 4]> {
    ips.filter(|ip: IpAddress| ip is V4).map_values(|ip: IpAddress| ip->V4_0)
}

/// The IPv6 addresses of `ips`, in order.
pub open spec fn v6_addresses(ips: Seq<IpAddress>) -> Seq<[u8; 16]> {
    ips.filter(|ip: IpAddress| ip is V6).map_values(|ip: IpAddress| ip->V6_0)
}

/// Whether a record with password digest `stored` accepts `digest`.
/// A record without a digest accepts none.
pub open spec fn digest_accepted(stored: Option<Seq<char>>, digest: Seq<char>) -> bool {
    stored == Some(digest)
}

/// Appending one address to a list appends it to the list of its family
/// and leaves the other family's list alone.
pub proof fn lemma_addresses_push(ips: Seq<IpAddress>, ip: IpAddress)
    ensures
        v4_addresses(ips.push(ip)) == match ip {
            IpAddress::V4(a) => v4_addresses(ips).push(a),
            IpAddress::V6(_) => v4_addresses(ips),
        },
        v6_addresses(ips.push(ip)) == match ip {
            IpAddress::V4(_) => v6_addresses(ips),
            IpAddress::V6(a) => v6_addresses(ips).push(a),
        },
{
    reveal(Seq::filter);
    assert(ips.push(ip).drop_last() == ips);
}

/// No address list has addresses of either family before its first entry.
pub proof fn lemma_addresses_empty()
    ensures
        v4_addresses(Seq::empty()) == Seq::<[u8; 4]>::empty(),
        v6_addresses(Seq::empty()) == Seq::<[u8; 16]>::empty(),
{
    reveal(Seq::filter);
}

impl Clone for ClientInfo {
    fn clone(&self) -> (copy: Self)
        ensures
            copy@ == self@,
    {
        let passwd = match &self.passwd {
            Some(p) => Some(p.clone()),
            None => None,
        };
        Self {
            id: self.id,
            account: self.account.clone(),
            passwd,
            ipv4s: copy_v4(&self.ipv4s),
            ipv6s: copy_v6(&self.ipv6s),
        }
    }
}

fn copy_v4(list: &Vec<[u8; 4]>) -> (copy: Vec<[u8; 4]>)
    ensures
        copy@ == list@,
{
    let mut copy: Vec<[u8; 4]> = Vec::new();
    let mut i: usize = 0;
    while i < list.len()
        invariant
            i <= list.len(),
            copy@ == list@.take(i as int),
        decreases list.len() - i,
    {
        copy.push(list[i]);
        i += 1;
    }
    copy
}

fn copy_v6(list: &Vec<[u8; 16]>) -> (copy: Vec<[u8; 16]>)
    ensures
        copy@ == list@,
{
    let mut copy: Vec<[u8; 16]> = Vec::new();
    let mut i: usize = 0;
    while i < list.len()
        invariant
            i <= list.len(),
            copy@ == list@.take(i as int),
        decreases list.len() - i,
    {
        copy.push(list[i]);
        i += 1;
    }
    copy
}

impl ClientInfo {
    /// A record without password and without addresses.
    pub fn new(id: u128, account: &str) -> (info: Self)
        ensures
            info@ == (ClientInfoView {
                id,
                account: account@,
                passwd: None,
                ipv4s: Seq::empty(),
                ipv6s: Seq::empty(),
            }),
    {
        Self { id, account: account.to_owned(), passwd: None, ipv4s: Vec::new(), ipv6s: Vec::new() }
    }

    /// A record without addresses that carries `digest` as it stands.
    pub fn with_digest(id: u128, account: &str, digest: Option<String>) -> (info: Self)
        ensures
            info@ == (ClientInfoView {
                id,
                account: account@,
                passwd: opt_text(digest),
                ipv4s: Seq::empty(),
                ipv6s: Seq::empty(),
            }),
    {
        let mut info = Self::new(id, account);
        info.passwd = digest;
        info
    }

    /// A record without addresses whose password, if one is configured, is
    /// replaced by its digest: the plaintext does not enter the record.
    pub fn builder(id: u128, account: &str, passwd_plaintext: &Option<String>) -> (info: Self)
        ensures
            info@ == (ClientInfoView {
                id,
                account: account@,
                passwd: digest_of(opt_text(*passwd_plaintext)),
                ipv4s: Seq::empty(),
                ipv6s: Seq::empty(),
            }),
            info.passwd matches Some(d) ==> d@.len() == 64,
    {
        let digest = match passwd_plaintext {
            Some(plaintext) => Some(sha256(plaintext.as_str())),
            None => None,
        };
        Self::with_digest(id, account, digest)
    }

    /// Appends each address of `ips` to the list of its family, in the
    /// order given; nothing else changes.
    pub fn set_ips(self, ips: &Vec<IpAddress>) -> (info: Self)
        ensures
            info@ == (ClientInfoView {
                ipv4s: self.ipv4s@ + v4_addresses(ips@),
                ipv6s: self.ipv6s@ + v6_addresses(ips@),
                ..self@
            }),
    {
        let ghost before = self@;
        let mut info = self;
        let mut i: usize = 0;
        proof {
            lemma_addresses_empty();
        }
        while i < ips.len()
            invariant
                i <= ips.len(),
                info@ == (ClientInfoView {
                    ipv4s: before.ipv4s + v4_addresses(ips@.take(i as int)),
                    ipv6s: before.ipv6s + v6_addresses(ips@.take(i as int)),
                    ..before
                }),
            decreases ips.len() - i,
        {
            proof {
                lemma_addresses_push(ips@.take(i as int), ips@[i as int]);
                assert(ips@.take(i + 1) == ips@.take(i as int).push(ips@[i as int]));
            }
            match ips[i] {
                IpAddress::V4(a) => info.ipv4s.push(a),
                IpAddress::V6(a) => info.ipv6s.push(a),
            }
            i += 1;
        }
        proof {
            assert(ips@.take(ips.len() as int) == ips@);
        }
        info
    }

    /// Whether this record carries exactly `digest`.
    pub fn matches_digest(&self, digest: &String) -> (same: bool)
        ensures
            same == digest_accepted(self@.passwd, digest@),
    {
        match &self.passwd {
            Some(p) => *p == *digest,
            None => false,
        }
    }

    /// Whether `passwd_plaintext` is the password of this record: the
    /// record carries a digest and the plaintext digests to it. A record
    /// without a password accepts no password at all.
    pub fn verify_passwd(&self, passwd_plaintext: &str) -> (same: bool)
        ensures
            same == digest_accepted(self@.passwd, sha256_hex(passwd_plaintext@)),
    {
        let digest = sha256(passwd_plaintext);
        self.matches_digest(&digest)
    }
}

/// Calls `Sha256::new`, `input_str` and `result_str` of the `crypto` crate.
///
/// Trusted: the result is a function of the characters of `plaintext`
/// alone, named [`sha256_hex`], and has 64 characters, two hexadecimal
/// digits for each of the 32 bytes of the digest.
#[verifier::external_body]
pub(crate) fn sha256(plaintext: &str) -> (digest: String)
    ensures
        digest@ == sha256_hex(plaintext@),
        digest@.len() == 64,
{
    let mut hasher = crypto::sha2::Sha256::new();
    hasher.input_str(plaintext);
    hasher.result_str()
}

} // verus!
