//! Random bytes from the operating system, through `getrandom`.
use vstd::prelude::*;

verus! {

#[verifier::external_type_specification]
#[verifier::external_body]
pub struct ExGetrandomError(getrandom::Error);

/// `getrandom::fill`: fills the buffer from the system's secure random source.
/// The contract claims only that the buffer keeps its length; what it holds
/// afterwards is left unsaid, as it is random.
#[verifier::external_body]
fn fill(dest: &mut Vec<u8>) -> (r: Result<(), getrandom::Error>)
    ensures
        final(dest)@.len() == old(dest)@.len(),
{
    getrandom::fill(dest.as_mut_slice())
}

/// Sixteen random bytes, or `None` when the system cannot provide them.
pub fn random_bytes16() -> (r: Option<Vec<u8>>)
    ensures
        r matches Some(b) ==> b@.len() == 16,
{
    let mut bytes: Vec<u8> = Vec::new();
    let mut i: usize = 0;
    while i < 16
        invariant
            i <= 16,
            bytes@.len() == i,
        decreases 16 - i,
    {
        bytes.push(0u8);
        i = i + 1;
    }
    match fill(&mut bytes) {
        Ok(()) => Some(bytes),
        Err(_) => None,
    }
}

} // verus!
