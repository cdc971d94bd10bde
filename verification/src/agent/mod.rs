//! Agent identifiers.
use vstd::prelude::*;

use rand::distr::{Alphanumeric, SampleString};
use rand::rngs::{StdRng, SysRng};
use rand::SeedableRng;

use crate::error::Error;

pub mod cmd;

verus! {

/// ASCII letters and digits.
pub open spec fn is_alphanumeric(c: char) -> bool {
    ||| ('0' <= c && c <= '9')
    ||| ('A' <= c && c <= 'Z')
    ||| ('a' <= c && c <= 'z')
}

/// The number of random characters that end an agent identifier.
pub const AGENT_SUFFIX_LEN: usize = 16;

#[verifier::external_type_specification]
#[verifier::external_body]
pub struct ExStdRng(StdRng);

/// A generator seeded from the operating system's, through
/// `StdRng::try_from_rng(&mut SysRng)`; `None` when the operating system's
/// generator fails. Nothing is said of the generator's state.
#[verifier::external_body]
fn seeded_rng() -> (r: Option<StdRng>) {
    match StdRng::try_from_rng(&mut SysRng) {
        Ok(rng) => Some(rng),
        Err(_) => None,
    }
}

/// Draws `len` characters from `rand::distr::Alphanumeric` with `rng`,
/// through `SampleString::sample_string`.
///
/// rand's source takes exactly `len` samples of the distribution, and each
/// sample is one of the ASCII letters and digits. Which characters come out
/// is chance and is not stated.
#[verifier::external_body]
fn sample_alphanumeric(rng: &mut StdRng, len: usize) -> (s: String)
    ensures
        s@.len() == len,
        forall|i: int| 0 <= i < len ==> is_alphanumeric(#[trigger] s@[i]),
{
    Alphanumeric.sample_string(rng, len)
}

/// An agent identifier: `agent-`, the role and `-` when there is a role,
/// then the suffix.
pub open spec fn agent_id_text(role: Option<Seq<char>>, suffix: Seq<char>) -> Seq<char> {
    match role {
        Some(r) => "agent-"@ + r + "-"@ + suffix,
        None => "agent-"@ + suffix,
    }
}

/// The view of an optional string.
pub open spec fn opt_text(o: Option<String>) -> Option<Seq<char>> {
    match o {
        Some(s) => Some(s@),
        None => None,
    }
}

/// The agent identifier for a role and a suffix.
pub fn agent_id(role: &Option<String>, suffix: &str) -> (s: String)
    ensures
        s@ == agent_id_text(opt_text(*role), suffix@),
{
    let mut s = "agent-".to_owned();
    match role {
        Some(r) => {
            s.append(r.as_str());
            s.append("-");
            s.append(suffix);
        },
        None => {
            s.append(suffix);
        },
    }
    s
}

/// A fresh agent identifier for the role: the identifier ends in sixteen
/// random letters and digits. An I/O error when the operating system's
/// random number generator fails.
pub fn new_agent_id(role: &Option<String>) -> (r: Result<String, Error>)
    ensures
        match r {
            Ok(s) => {
                &&& s@.len() >= AGENT_SUFFIX_LEN
                &&& s@ == agent_id_text(
                    opt_text(*role),
                    s@.subrange(s@.len() - AGENT_SUFFIX_LEN, s@.len() as int),
                )
                &&& forall|i: int|
                    s@.len() - AGENT_SUFFIX_LEN <= i < s@.len() ==> is_alphanumeric(
                        #[trigger] s@[i],
                    )
            },
            Err(e) => e matches Error::IOError(m) && m@
                == "the operating system's random number generator failed"@,
        },
{
    let mut rng = match seeded_rng() {
        Some(rng) => rng,
        None => {
            return Err(
                Error::IOError("the operating system's random number generator failed".to_owned()),
            )
        },
    };
    let dsc = sample_alphanumeric(&mut rng, AGENT_SUFFIX_LEN);
    let s = agent_id(role, dsc.as_str());
    proof {
        let n = s@.len();
        assert(s@.subrange(n - AGENT_SUFFIX_LEN, n as int) =~= dsc@);
        assert forall|i: int| n - AGENT_SUFFIX_LEN <= i < n implies is_alphanumeric(
            #[trigger] s@[i],
        ) by {
            assert(s@[i] == dsc@[i - (n - AGENT_SUFFIX_LEN)]);
        }
    }
    Ok(s)
}

} // verus!
