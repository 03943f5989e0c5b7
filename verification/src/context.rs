//! What a policy sees of the call it authorizes: the authorization context,
//! the signer, and the context rule it is installed under.
use vstd::prelude::*;

use crate::storage::Address;

verus! {

/// A host value passed as a call argument, as far as the policies read it.
#[derive(Clone, Debug)]
pub enum Val {
    /// An address argument.
    Address(Address),
    /// A 128-bit signed integer argument.
    I128(i128),
    /// A symbol argument.
    Symbol(String),
    /// Any other kind of value.
    Other,
}

/// A contract call being authorized.
#[derive(Clone, Debug)]
pub struct ContractContext {
    /// Contract being called.
    pub contract: Address,
    /// Function being called.
    pub fn_name: String,
    /// Call arguments, in order.
    pub args: Vec<Val>,
}

/// The authorization context of one invocation.
#[derive(Clone, Debug)]
pub enum Context {
    /// A contract function call.
    Contract(ContractContext),
    /// Creation of a contract.
    CreateContract,
}

/// The signer that authenticated a call.
#[derive(Clone, Debug)]
pub enum Signer {
    /// The smart account itself.
    SmartAccount(Address),
    /// Another signer, identified by its address.
    Other(Address),
}

/// The context rule a policy is installed under.
#[derive(Clone, Debug)]
pub struct ContextRule {
    /// Rule identifier, unique within a smart account.
    pub id: u32,
}

/// Why a policy refused a call.
#[derive(Clone, Copy, Debug, PartialEq, Eq, Structural)]
pub enum EnforceError {
    Denied,
}

/// The function name and arguments of a contract call, if the context is one.
pub open spec fn call_of(context: &Context) -> Option<(Seq<char>, Seq<Val>)> {
    match context {
        Context::Contract(c) => Some((c.fn_name@, c.args@)),
        Context::CreateContract => None,
    }
}

/// Whether the context is a call of the function `name`.
pub fn is_call_to(context: &Context, name: &str) -> (r: bool)
    ensures
        r == (call_of(context) matches Some((f, _)) && f == name@),
{
    match context {
        Context::Contract(c) => crate::text::str_eq(c.fn_name.as_str(), name),
        Context::CreateContract => false,
    }
}

} // verus!
