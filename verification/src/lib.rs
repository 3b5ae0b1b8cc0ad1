//! Three pure operations meant to be exported to a host runtime:
//! `u64` addition with a wraparound overflow policy, a greeting string,
//! and an age-based voting-eligibility message.
use vstd::prelude::*;

pub mod decimal;

verus! {

/// The sum of `a` and `b` reduced modulo 2^64: the value `add` returns.
pub open spec fn wrapped_sum(a: u64, b: u64) -> int {
    (a + b) % 0x1_0000_0000_0000_0000
}

/// Sum of `left` and `right`. Overflow policy: wraparound; the sum is
/// reduced modulo 2^64, which the contract states exactly. When the
/// mathematical sum fits in `u64`, the result is that sum.
pub fn add(left: u64, right: u64) -> (r: u64)
    ensures
        r == wrapped_sum(left, right),
        left + right <= u64::MAX ==> r == left + right,
{
    if right <= u64::MAX - left {
        left + right
    } else {
        (left - (u64::MAX - right)) - 1
    }
}

/// The view of the string `greet` returns for `name`.
pub open spec fn greeting(name: Seq<char>) -> Seq<char> {
    "Hello, "@ + name + "!"@
}

/// The greeting for `name`: `"Hello, "`, then the name unchanged, then `"!"`.
/// Always succeeds; an empty name yields `"Hello, !"`.
pub fn greet(name: &str) -> (r: String)
    ensures
        r@ == greeting(name@),
{
    let mut s = String::from_str("Hello, ");
    s.append(name);
    s.append("!");
    proof {
        assert(s@ =~= greeting(name@));
    }
    s
}

/// The age at which the three-way comparison turns.
pub const ELIGIBLE_AGE: i8 = 18;

/// The view of the string `age_comparator` returns for `age`: a distinct
/// message for each side of the threshold, and a third one at the
/// threshold itself.
pub open spec fn eligibility_message(age: int) -> Seq<char> {
    if age > ELIGIBLE_AGE {
        "You are "@ + decimal::int_decimal(age) + " Eligible To Vote"@
    } else if age < ELIGIBLE_AGE {
        "You are "@ + decimal::int_decimal(age) + " Not Eligible To Vote"@
    } else {
        "Congrats You gained the Rights to Vote"@
    }
}

/// The voting-eligibility message for `age`. Ages above the threshold are
/// eligible, ages below it (negative ones included) are not, and the
/// threshold itself gets its own congratulation. Always succeeds.
pub fn age_comparator(age: i8) -> (r: String)
    ensures
        r@ == eligibility_message(age as int),
{
    if age > ELIGIBLE_AGE {
        let mut s = String::from_str("You are ");
        let digits = decimal::i8_decimal(age);
        s.append(digits.as_str());
        s.append(" Eligible To Vote");
        proof {
            assert(s@ =~= eligibility_message(age as int));
        }
        s
    } else if age < ELIGIBLE_AGE {
        let mut s = String::from_str("You are ");
        let digits = decimal::i8_decimal(age);
        s.append(digits.as_str());
        s.append(" Not Eligible To Vote");
        proof {
            assert(s@ =~= eligibility_message(age as int));
        }
        s
    } else {
        String::from_str("Congrats You gained the Rights to Vote")
    }
}

/// Law: `add` keeps no hidden state; any two results its contract allows
/// for the same operands are equal, so repeated calls agree.
pub proof fn lemma_add_repeatable(a: u64, b: u64, r1: u64, r2: u64)
    requires
        r1 == wrapped_sum(a, b),
        r2 == wrapped_sum(a, b),
    ensures
        r1 == r2,
{
}

/// Law: `greet` keeps no hidden state; any two result views its contract
/// allows for the same name are equal, so repeated calls agree.
pub proof fn lemma_greet_repeatable(name: Seq<char>, r1: Seq<char>, r2: Seq<char>)
    requires
        r1 == greeting(name),
        r2 == greeting(name),
    ensures
        r1 == r2,
{
}

/// Law: `age_comparator` keeps no hidden state; any two result views its
/// contract allows for the same age are equal, so repeated calls agree.
pub proof fn lemma_age_comparator_repeatable(age: int, r1: Seq<char>, r2: Seq<char>)
    requires
        r1 == eligibility_message(age),
        r2 == eligibility_message(age),
    ensures
        r1 == r2,
{
}

} // verus!
