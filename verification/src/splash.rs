//! The splash image: one of the images on offer, picked at random.

use rand::Rng;
use vstd::prelude::*;

verus! {

/// `Rng::choose` on `rand::thread_rng()`: a random element of the list, or
/// nothing where the list is empty. Which element is a matter of chance;
/// the contract says only that it is one of the list.
#[verifier::external_body]
fn pick_random(paths: &Vec<String>) -> (chosen: Option<String>)
    ensures
        match chosen {
            Some(path) => exists|i: int| 0 <= i < paths.len() && path@ == (#[trigger] paths[i])@,
            None => paths.len() == 0,
        },
{
    #[allow(deprecated)]
    rand::thread_rng().choose(paths).cloned()
}

/// One of `paths`, picked at random, or nothing where there are none.
pub fn select_random_image(paths: &Vec<String>) -> (chosen: Option<String>)
    ensures
        match chosen {
            Some(path) => paths.deep_view().contains(path@),
            None => paths.len() == 0,
        },
{
    let chosen: Option<String> = pick_random(paths);
    proof {
        if chosen is Some {
            let path = chosen->Some_0;
            let i = choose|i: int| 0 <= i < paths.len() && path@ == (#[trigger] paths[i])@;
            assert(paths.deep_view()[i] == path@);
        }
    }
    chosen
}

} // verus!
