//! Keys for an unattended run of the picker, as a demonstration or a soak
//! test wants them: a few rounds, each pressing one of the first hints, chosen
//! at random.
use vstd::prelude::*;

verus! {

/// How many rounds an unattended run makes.
pub const DEMO_ROUNDS: usize = 5;

/// The keys that an unattended run presses.
pub open spec fn demo_keys() -> Seq<char> {
    seq!['a', 's', 'd']
}

/// The key that an unattended run presses for the number `r`: the keys are
/// taken in turn as `r` grows.
pub fn demo_key(r: usize) -> (key: char)
    ensures
        key == demo_keys()[(r % 3) as int],
{
    let at = r % 3;
    if at == 0 {
        'a'
    } else if at == 1 {
        's'
    } else {
        'd'
    }
}

/// The key to press in one round of an unattended run, chosen at random.
/// Two calls may differ; each gives one of the keys of `demo_keys`.
pub fn random_demo_key() -> (key: char)
    ensures
        demo_keys().contains(key),
{
    let r = random_usize();
    let key = demo_key(r);
    assert(demo_keys()[(r % 3) as int] == key);
    key
}

/// `rand::random::<usize>()`: a number from the thread's generator, which
/// the operating system seeds. Nothing is claimed of the number. The call
/// does not return where the system gives the generator no seed.
#[verifier::external_body]
fn random_usize() -> usize {
    rand::random::<usize>()
}

} // verus!
