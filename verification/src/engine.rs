//! A model of the consensus engine handle, reduced to what this library
//! reads of it: the engine's named configuration parameters and the
//! configured start nonce of accounts. The engine's rules themselves are
//! an external collaborator.

use vstd::prelude::*;
use vstd::string::StringExecFns;

use crate::address::{address_parses, parse_address, parsed_address_bytes, Address};
use crate::error::Error;

verus! {

/// One named parameter of the engine's configuration.
#[derive(Debug, PartialEq, Eq)]
pub struct Param {
    /// The parameter's name.
    pub name: String,
    /// Its stored value.
    pub value: String,
}

/// The mathematical content of a [`Param`] value.
pub ghost struct ParamModel {
    pub name: Seq<char>,
    pub value: Seq<char>,
}

impl View for Param {
    type V = ParamModel;

    open spec fn view(&self) -> ParamModel {
        ParamModel { name: self.name@, value: self.value@ }
    }
}

/// The mathematical content of an [`Engine`] value.
pub ghost struct EngineModel {
    /// The named configuration parameters, in order.
    pub params: Seq<ParamModel>,
    /// The sender nonce every account starts from.
    pub account_start_nonce: u64,
}

/// The value stored under `name`, if any: the first parameter of that
/// name decides, as in a map with unique keys.
pub open spec fn param_value(params: Seq<ParamModel>, name: Seq<char>) -> Option<Seq<char>>
    decreases params.len(),
{
    if params.len() == 0 {
        Option::None
    } else if params[0].name == name {
        Option::Some(params[0].value)
    } else {
        param_value(params.skip(1), name)
    }
}

/// The engine's stored "registrar" parameter, if configured.
pub open spec fn registrar_param(engine: EngineModel) -> Option<Seq<char>> {
    param_value(engine.params, "registrar"@)
}

/// What this library reads of the active consensus engine.
#[derive(Debug, PartialEq, Eq)]
pub struct Engine {
    /// The engine's additional configuration parameters; the one read
    /// here is "registrar". Names are unique in a configured engine, and
    /// the first occurrence decides in any case.
    pub additional_params: Vec<Param>,
    /// The configured start nonce for accounts, used as the nonce of
    /// synthetic transactions.
    pub account_start_nonce: u64,
}

impl View for Engine {
    type V = EngineModel;

    open spec fn view(&self) -> EngineModel {
        EngineModel {
            params: Seq::new(self.additional_params@.len(), |i: int| self.additional_params@[i]@),
            account_start_nonce: self.account_start_nonce,
        }
    }
}

impl Engine {
    /// Looks the named parameter up in the engine's configuration.
    pub fn additional_param(&self, name: &String) -> (r: Option<String>)
        ensures
            param_value(self@.params, name@) is None ==> r is None,
            param_value(self@.params, name@) matches Some(v) ==> (r matches Some(s) && s@ == v),
    {
        let n = self.additional_params.len();
        let mut i: usize = 0;
        proof {
            assert(self@.params.skip(0) =~= self@.params);
        }
        while i < n
            invariant
                n == self.additional_params@.len(),
                i <= n,
                param_value(self@.params, name@) == param_value(
                    self@.params.skip(i as int),
                    name@,
                ),
            decreases n - i,
        {
            if self.additional_params[i].name.eq(name) {
                proof {
                    assert(self@.params.skip(i as int)[0] == self@.params[i as int]);
                }
                return Some(self.additional_params[i].value.clone());
            }
            proof {
                assert(self@.params.skip(i as int)[0] == self@.params[i as int]);
                assert(self@.params.skip(i as int).skip(1) =~= self@.params.skip(i as int + 1));
            }
            i = i + 1;
        }
        None
    }
}

impl Clone for Engine {
    fn clone(&self) -> (r: Self)
        ensures
            r@ == self@,
    {
        let mut params: Vec<Param> = Vec::new();
        let mut i: usize = 0;
        while i < self.additional_params.len()
            invariant
                i <= self.additional_params@.len(),
                params@.len() == i,
                forall|j: int| 0 <= j < i ==> #[trigger] params@[j]@ == self.additional_params@[j]@,
            decreases self.additional_params@.len() - i,
        {
            let p = Param {
                name: self.additional_params[i].name.clone(),
                value: self.additional_params[i].value.clone(),
            };
            params.push(p);
            i = i + 1;
        }
        let r = Engine { additional_params: params, account_start_nonce: self.account_start_nonce };
        proof {
            assert(r@.params =~= self@.params);
        }
        r
    }
}

/// Whether `r` correctly resolves the registrar parameter of an engine:
/// an absent parameter is the configuration failure, a configured value
/// parses to its address exactly when it is well-formed forty-digit
/// hexadecimal, and a malformed value is rejected with a non-empty
/// diagnostic.
pub open spec fn registrar_lookup_ok(engine: EngineModel, r: Result<Address, Error>) -> bool {
    &&& registrar_param(engine) is None ==> r == Err::<Address, Error>(
        Error::RegistrarNotConfigured,
    )
    &&& registrar_param(engine) matches Some(s) ==> (if address_parses(s) {
        r matches Ok(a) && a.wf() && a@ == parsed_address_bytes(s)
    } else {
        r matches Err(e) && e matches Error::InvalidAddress(d) && d@.len() > 0
    })
}

/// Resolves the registrar contract's address from the engine's
/// configuration: absent parameter and unparseable parameter are the two
/// failures, and exactly the well-formed forty-digit hexadecimal values
/// succeed.
pub fn registrar_address(engine: &Engine) -> (r: Result<Address, Error>)
    ensures
        registrar_lookup_ok(engine@, r),
{
    let name = String::from_str("registrar");
    match engine.additional_param(&name) {
        Option::None => Err(Error::RegistrarNotConfigured),
        Option::Some(stored) => match parse_address(stored.as_str()) {
            Ok(a) => Ok(a),
            Err(d) => Err(Error::InvalidAddress(d)),
        },
    }
}

} // verus!
