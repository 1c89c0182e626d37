//! Tab labels: the random identifier that names a tab's window, its record
//! file and its folder.

use rand::distributions::Alphanumeric;
use rand::Rng;
use vstd::prelude::*;
use vstd::string::StringExecFns;

verus! {

/// The number of characters in a label.
pub const LABEL_LENGTH: usize = 32;

/// Whether `c` is one of the 62 ASCII letters and digits.
pub open spec fn is_alphanumeric(c: char) -> bool {
    ||| 'a' <= c <= 'z'
    ||| 'A' <= c <= 'Z'
    ||| '0' <= c <= '9'
}

/// Whether every character of `s` is an ASCII letter or digit.
pub open spec fn all_alphanumeric(s: Seq<char>) -> bool {
    forall|i: int| 0 <= i < s.len() ==> is_alphanumeric(#[trigger] s[i])
}

/// Whether `s` has the shape of a label: 32 ASCII letters and digits.
pub open spec fn is_label(s: Seq<char>) -> bool {
    s.len() == LABEL_LENGTH && all_alphanumeric(s)
}

/// Draws one character from `rand`'s `Alphanumeric` distribution on the
/// thread's generator (`thread_rng().sample(Alphanumeric)`).
///
/// Trusted: the distribution yields only bytes of its charset, the 62 ASCII
/// letters and digits. Which of them comes is chance, and nothing is claimed
/// of it. The generator seeds itself from the system's source of entropy,
/// which must be there.
#[verifier::external_body]
fn random_alphanumeric() -> (s: String)
    ensures
        s@.len() == 1,
        is_alphanumeric(s@[0]),
{
    char::from(rand::thread_rng().sample(Alphanumeric)).to_string()
}

/// A fresh label. Two calls agree only by chance: among 62^32 labels a
/// repetition is not expected, and it is not ruled out.
pub fn generate_label() -> (label: String)
    ensures
        is_label(label@),
{
    let mut label = String::new();
    let mut drawn: usize = 0;
    while drawn < LABEL_LENGTH
        invariant
            drawn <= LABEL_LENGTH,
            label@.len() == drawn,
            all_alphanumeric(label@),
        decreases LABEL_LENGTH - drawn,
    {
        let next = random_alphanumeric();
        label.append(next.as_str());
        drawn += 1;
    }
    label
}

} // verus!
