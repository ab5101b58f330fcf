//! A model of the signer service: the address it exposes to the hosting
//! layer and the set of web-proxy access tokens it currently holds
//! valid. Token issuance and expiry are an external collaborator; this
//! library checks membership.

use vstd::prelude::*;

use crate::address::Address;

verus! {

/// The mathematical content of a [`SignerService`] value.
pub ghost struct SignerModel {
    /// The bytes of the address the signer exposes.
    pub address: Seq<u8>,
    /// The valid web-proxy access tokens.
    pub tokens: Seq<Seq<char>>,
}

/// Whether `token` is among the valid tokens.
pub open spec fn token_listed(tokens: Seq<Seq<char>>, token: Seq<char>) -> bool {
    exists|i: int| 0 <= i < tokens.len() && tokens[i] == token
}

/// What this library reads of the signer service.
#[derive(Debug)]
pub struct SignerService {
    /// The address the signer exposes, mounted into the hosting layer.
    pub address: Address,
    /// The web-proxy access tokens the signer currently holds valid.
    pub web_proxy_tokens: Vec<String>,
}

impl View for SignerService {
    type V = SignerModel;

    open spec fn view(&self) -> SignerModel {
        SignerModel {
            address: self.address@,
            tokens: Seq::new(self.web_proxy_tokens@.len(), |i: int| self.web_proxy_tokens@[i]@),
        }
    }
}

impl SignerService {
    /// The address the signer exposes.
    pub fn address(&self) -> (a: Address)
        ensures
            a@ == self.address@,
    {
        self.address.clone()
    }

    /// Whether `token` is a currently valid web-proxy access token. Safe
    /// to ask concurrently: the check only reads the held set.
    pub fn is_valid_web_proxy_access_token(&self, token: &String) -> (r: bool)
        ensures
            r == token_listed(self@.tokens, token@),
    {
        let n = self.web_proxy_tokens.len();
        let mut i: usize = 0;
        while i < n
            invariant
                n == self.web_proxy_tokens@.len(),
                i <= n,
                forall|j: int| 0 <= j < i ==> self@.tokens[j] != token@,
            decreases n - i,
        {
            if self.web_proxy_tokens[i].eq(token) {
                proof {
                    assert(self@.tokens[i as int] == token@);
                }
                return true;
            }
            i = i + 1;
        }
        false
    }
}

impl Clone for SignerService {
    fn clone(&self) -> (r: Self)
        ensures
            r@ == self@,
    {
        let mut tokens: Vec<String> = Vec::new();
        let mut i: usize = 0;
        while i < self.web_proxy_tokens.len()
            invariant
                i <= self.web_proxy_tokens@.len(),
                tokens@.len() == i,
                forall|j: int| 0 <= j < i ==> tokens@[j]@ == self.web_proxy_tokens@[j]@,
            decreases self.web_proxy_tokens@.len() - i,
        {
            let t = self.web_proxy_tokens[i].clone();
            tokens.push(t);
            i = i + 1;
        }
        let r = SignerService { address: self.address.clone(), web_proxy_tokens: tokens };
        proof {
            assert(r@.tokens =~~= self@.tokens);
        }
        r
    }
}

/// The web-proxy access predicate handed to the hosting middleware: a
/// value holding the signer and answering, per request, whether a token
/// grants proxy access. Replaces an ad-hoc capturing closure.
#[derive(Debug)]
pub struct WebProxyTokens {
    /// The signer whose token set is consulted.
    pub signer: SignerService,
}

impl WebProxyTokens {
    /// Whether `token` grants web-proxy access.
    pub fn is_valid(&self, token: &String) -> (r: bool)
        ensures
            r == token_listed(self.signer@.tokens, token@),
    {
        self.signer.is_valid_web_proxy_access_token(token)
    }
}

} // verus!
