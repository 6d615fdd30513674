//! Two small, stateless utilities with verified contracts: signed 32-bit
//! addition with two's-complement wraparound, and a fixed-template greeting.

use vstd::prelude::*;

verus! {

/// The representative of `n` modulo 2^32 that lies in the range of `i32`.
pub open spec fn wrap_i32(n: int) -> int {
    let r = n % 0x1_0000_0000;
    if r > i32::MAX {
        r - 0x1_0000_0000
    } else {
        r
    }
}

/// The sum of `a` and `b` as a signed 32-bit integer, wrapping around on overflow.
pub open spec fn wrapping_sum(a: i32, b: i32) -> int {
    wrap_i32(a + b)
}

/// Adds two signed 32-bit integers.
///
/// The result is the mathematical sum whenever that sum is representable. A sum
/// outside the range of `i32` wraps around silently (two's complement); it is
/// neither saturated nor reported as an error.
pub fn add(a: i32, b: i32) -> (sum: i32)
    ensures
        sum == wrapping_sum(a, b),
        i32::MIN <= a + b <= i32::MAX ==> sum == a + b,
        a + b > i32::MAX ==> sum == a + b - 0x1_0000_0000,
        a + b < i32::MIN ==> sum == a + b + 0x1_0000_0000,
{
    a.wrapping_add(b)
}

/// Wrapping an integer yields a value in the range of `i32` that differs from
/// it by a multiple of 2^32, and leaves an integer already in that range as it is.
pub proof fn lemma_wrap_i32(n: int)
    ensures
        i32::MIN <= wrap_i32(n) <= i32::MAX,
        (wrap_i32(n) - n) % 0x1_0000_0000 == 0,
        i32::MIN <= n <= i32::MAX ==> wrap_i32(n) == n,
{
}

/// Addition is commutative: swapping the operands does not change the sum,
/// whether or not it wraps.
pub proof fn lemma_add_commutative(a: i32, b: i32)
    ensures
        wrapping_sum(a, b) == wrapping_sum(b, a),
{
}

/// Addition has no hidden state: any two results that `add` may return for the
/// same operands are equal.
pub proof fn lemma_add_deterministic(a: i32, b: i32, first: i32, second: i32)
    requires
        first == wrapping_sum(a, b),
        second == wrapping_sum(a, b),
    ensures
        first == second,
{
}

/// The text of the greeting for `name`: the fixed opening, the name as given,
/// and the fixed closing, in that order.
pub open spec fn greeting(name: Seq<char>) -> Seq<char> {
    "Hello, "@ + name + " from Rust!"@
}

/// Builds the greeting for `name` as a new string.
///
/// Every name is accepted, the empty one included, and appears in the result
/// exactly as given: nothing in it is validated, escaped or trimmed.
pub fn hello(name: &str) -> (text: String)
    ensures
        text@ == greeting(name@),
{
    let mut text = String::from_str("Hello, ");
    text.append(name);
    text.append(" from Rust!");
    text
}

/// The greeting is the name with seven characters before it and eleven after:
/// the name can be read back from it unchanged.
pub proof fn lemma_greeting_layout(name: Seq<char>)
    ensures
        greeting(name).len() == name.len() + 18,
        greeting(name).take(7) == "Hello, "@,
        greeting(name).skip(7).take(name.len() as int) == name,
        greeting(name).skip(7 + name.len() as int) == " from Rust!"@,
{
    reveal_strlit("Hello, ");
    reveal_strlit(" from Rust!");
    assert(greeting(name).take(7) =~= "Hello, "@);
    assert(greeting(name).skip(7).take(name.len() as int) =~= name);
    assert(greeting(name).skip(7 + name.len() as int) =~= " from Rust!"@);
}

/// The greeting has no hidden state: any two results that `hello` may return
/// for the same name hold the same text.
pub proof fn lemma_hello_deterministic(name: Seq<char>, first: Seq<char>, second: Seq<char>)
    requires
        first == greeting(name),
        second == greeting(name),
    ensures
        first == second,
{
}

} // verus!
