use vstd::prelude::*;
use ff::PrimeField;
use fil_pasta_curves::Fq;

verus! {

/// An element of the primary curve's scalar field (pallas's scalar field).
#[verifier::external_type_specification]
#[verifier::external_body]
pub struct ExFq(Fq);

pub open spec fn is_digit(c: char) -> bool {
    '0' <= c && c <= '9'
}

/// The text that the field parser accepts: `0`, or ASCII digits without a leading zero.
pub open spec fn is_decimal_numeral(s: Seq<char>) -> bool {
    s == seq!['0'] || (s.len() > 0 && s[0] != '0' && forall|i: int|
        0 <= i < s.len() ==> is_digit(#[trigger] s[i]))
}

/// Relies on ff's `PrimeField::from_str_vartime` as pasta's `Fq` inherits it: it
/// returns `None` on the empty string, on a character that is not an ASCII digit
/// and on a leading zero (other than `0` itself), and `Some` otherwise.
#[verifier::external_body]
pub(crate) fn parse_scalar(text: &str) -> (r: Option<Fq>)
    ensures
        r is Some <==> is_decimal_numeral(text@),
{
    Fq::from_str_vartime(text)
}

} // verus!
