//! Generating passwords.
use vstd::prelude::*;
use rand::Rng;

verus! {

/// The length of a generated password.
pub const PASSWORD_LENGTH: usize = 20;

/// The characters `rand::distributions::Alphanumeric` draws from:
/// `A`-`Z`, `a`-`z` and `0`-`9`.
pub open spec fn is_alphanumeric(c: char) -> bool {
    ('A' <= c && c <= 'Z') || ('a' <= c && c <= 'z') || ('0' <= c && c <= '9')
}

/// A password as `generate_password` makes them: twenty letters and digits.
pub open spec fn is_generated_password(p: Seq<char>) -> bool {
    p.len() == PASSWORD_LENGTH && forall|i: int| 0 <= i < p.len() ==> #[trigger] is_alphanumeric(
        p[i],
    )
}

/// Draws one character with `Rng::sample(rand::distributions::Alphanumeric)`
/// from this thread's generator, `rand::thread_rng()` (seeded by the
/// operating system). Its source picks one byte of `A`-`Z`, `a`-`z`, `0`-`9`,
/// handed out as a `char`. The contract claims only that the character is
/// one of these; which one rests on chance.
#[verifier::external_body]
fn sample_alphanumeric() -> (c: char)
    ensures
        is_alphanumeric(c),
{
    char::from(rand::thread_rng().sample(rand::distributions::Alphanumeric))
}

/// `c` is a character that one draw of the generator can give.
pub closed spec fn drawn(c: char) -> bool {
    call_ensures(sample_alphanumeric, (), c)
}

/// A fresh random password of twenty letters and digits, each one a draw of
/// the thread's generator.
pub fn generate_password() -> (p: String)
    ensures
        is_generated_password(p@),
        forall|i: int| 0 <= i < p@.len() ==> #[trigger] drawn(p@[i]),
{
    let mut p = String::new();
    let mut i: usize = 0;
    while i < PASSWORD_LENGTH
        invariant
            i <= PASSWORD_LENGTH,
            p@.len() == i,
            forall|j: int| 0 <= j < p@.len() ==> #[trigger] is_alphanumeric(p@[j]),
            forall|j: int| 0 <= j < p@.len() ==> #[trigger] drawn(p@[j]),
        decreases PASSWORD_LENGTH - i,
    {
        let c = sample_alphanumeric();
        assert(drawn(c));
        p.push(c);
        i = i + 1;
    }
    p
}

} // verus!
