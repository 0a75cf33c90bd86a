//! Reading a stored verifier. A verifier is a PHC string: it names the
//! algorithm, its version, its parameters, the salt and the digest. Argon2
//! decides whether a password verifies against it; what is decided here is
//! whether the verifier may be handed to Argon2 at all.
use crate::text::{all_digits, digits_value, same_text};
use argon2::password_hash::{PasswordHash, Value};
use argon2::{Argon2, PasswordVerifier};
use vstd::prelude::*;

verus! {

/// The largest degree of parallelism that Argon2 takes.
pub const MAX_P_COST: u32 = 0xFF_FFFF;

/// Degree of parallelism of a verifier that names none.
pub const DEFAULT_P_COST: u32 = 1;

/// One parameter of a verifier: its name and its value, as they are written.
#[derive(Debug)]
pub struct PhcParam {
    pub name: String,
    pub value: String,
}

/// A parameter, as mathematical values.
pub struct PhcParamView {
    pub name: Seq<char>,
    pub value: Seq<char>,
}

impl View for PhcParam {
    type V = PhcParamView;

    open spec fn view(&self) -> PhcParamView {
        PhcParamView { name: self.name@, value: self.value@ }
    }
}

/// The parameters of a list, each by its view.
pub open spec fn params_view(params: Seq<PhcParam>) -> Seq<PhcParamView> {
    Seq::new(params.len(), |i: int| params[i]@)
}

/// The parameters of a list that may be missing, by their view.
pub open spec fn optional_params(params: Option<Vec<PhcParam>>) -> Option<Seq<PhcParamView>> {
    match params {
        Some(p) => Some(params_view(p@)),
        None => None,
    }
}

/// The parameters that `PasswordHash::new` reads from a text, in the order of
/// the text; `None` for a text that is no PHC string.
pub uninterp spec fn phc_params(text: Seq<char>) -> Option<Seq<PhcParamView>>;

/// Whether a text is a PHC string against which Argon2 verifies a password.
pub uninterp spec fn phc_verdict(hash: Seq<char>, password: Seq<u8>) -> bool;

/// The number that the value of a parameter writes in decimal: one digit or
/// more, no sign, no leading zero but for zero itself, and no more than a
/// `u32` holds. `None` for any other value.
pub open spec fn decimal_of(value: Seq<char>) -> Option<u32> {
    if value.len() > 0 && all_digits(value) && !(value[0] == '0' && value.len() > 1)
        && digits_value(value) <= u32::MAX {
        Some(digits_value(value) as u32)
    } else {
        None
    }
}

/// The degree of parallelism that the first `upto` parameters name: the
/// value of the last one called `p`, or `None` where that value is no decimal
/// number; 1 where none is called `p`.
pub open spec fn declared_p(params: Seq<PhcParamView>, upto: int) -> Option<u32>
    decreases upto,
{
    if upto <= 0 || upto > params.len() {
        Some(DEFAULT_P_COST)
    } else if params[upto - 1].name == "p"@ {
        decimal_of(params[upto - 1].value)
    } else {
        declared_p(params, upto - 1)
    }
}

/// True for parameters that may be handed to Argon2: the degree of
/// parallelism that they name, where they name one, is one that it takes.
pub open spec fn parallelism_taken(params: Seq<PhcParamView>) -> bool {
    match declared_p(params, params.len() as int) {
        Some(p) => p <= MAX_P_COST,
        None => true,
    }
}

/// True for what the parameters of a verifier say when the verifier was
/// written under the degree of parallelism `p_cost`.
pub open spec fn written_under(params: Option<Seq<PhcParamView>>, p_cost: u32) -> bool {
    params matches Some(p) && declared_p(p, p.len() as int) == Some(p_cost)
}

/// Calls `PasswordHash::new` and hands out the parameters it parsed, each by
/// its name and its value.
///
/// Trusted: the result is the named value `phc_params`.
#[verifier::external_body]
pub(crate) fn parse_verifier(text: &str) -> (r: Option<Vec<PhcParam>>)
    ensures
        optional_params(r) == phc_params(text@),
{
    let parsed = PasswordHash::new(text).ok()?;
    Some(parsed.params.iter().map(|(name, value)| PhcParam {
        name: name.as_str().to_string(),
        value: value.as_str().to_string(),
    }).collect())
}

/// Calls `Value::decimal` on a parameter's value.
///
/// Trusted: the result is `decimal_of`, which says what the function's
/// documentation says: digits only, no leading zero, within a `u32`.
#[verifier::external_body]
pub(crate) fn read_decimal(value: &str) -> (r: Option<u32>)
    ensures
        r == decimal_of(value@),
{
    Value::new(value).ok()?.decimal().ok()
}

/// Calls `PasswordHash::new` and, where the text parses,
/// `Argon2::verify_password`, which computes the digest under what the
/// string names and compares it with the string's own in constant time.
///
/// The degree of parallelism that the string names must be one that Argon2
/// takes: `Params::new` multiplies it by 8 before it tests it.
///
/// Trusted: the result is the named verdict `phc_verdict`.
#[verifier::external_body]
pub(crate) fn argon2_verify(hash: &str, password: &[u8]) -> (r: bool)
    requires
        phc_params(hash@) matches Some(params) ==> parallelism_taken(params),
    ensures
        r == phc_verdict(hash@, password@),
{
    match PasswordHash::new(hash) {
        Ok(parsed) => Argon2::default().verify_password(password, &parsed).is_ok(),
        Err(_) => false,
    }
}

/// Decides whether the parameters of a verifier may be handed to Argon2.
pub fn takes_parallelism(params: &Vec<PhcParam>) -> (r: bool)
    ensures
        r == parallelism_taken(params_view(params@)),
{
    let mut i: usize = params.len();
    while i > 0
        invariant
            i <= params.len(),
            declared_p(params_view(params@), params.len() as int) == declared_p(
                params_view(params@),
                i as int,
            ),
        decreases i,
    {
        if same_text(params[i - 1].name.as_str(), "p") {
            return match read_decimal(params[i - 1].value.as_str()) {
                Some(p) => p <= MAX_P_COST,
                None => true,
            };
        }
        i -= 1;
    }
    true
}

} // verus!
