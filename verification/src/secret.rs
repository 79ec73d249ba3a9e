use vstd::prelude::*;

use crate::state::{AuthState, SecretDisplay};
use crate::text::{chars_of, push_char};
use rand::rngs::StdRng;
use rand::{Rng, SeedableRng};

verus! {

/// rand's standard generator, carried through opaque.
#[verifier::external_type_specification]
#[verifier::external_body]
pub struct ExStdRng(StdRng);

/// rand's `StdRng::seed_from_u64` with seed 0: the generator that makes
/// the same picks on every run. Nothing is stated of its state.
#[verifier::external_body]
fn fixed_rng() -> (r: StdRng) {
    StdRng::seed_from_u64(0)
}

/// rand's `Rng::gen_range` over `0..n`: a number below `n`. The range must
/// not be empty (the call panics on an empty one); which number comes is
/// left to the generator.
#[verifier::external_body]
fn pick_below(rng: &mut StdRng, n: usize) -> (r: usize)
    requires
        n > 0,
    ensures
        r < n,
{
    rng.gen_range(0..n)
}

/// What the answer field shows while `auth.buffer` is typed: the text
/// itself, unless a secret is asked for and shown by characters; then one
/// character per typed character, the display character itself when it is
/// a single one, else characters drawn from it by a generator with a fixed
/// seed.
pub open spec fn secret_shown_ok(auth: AuthState, shown: Seq<char>) -> bool {
    let typed = auth.buffer@;
    match auth.secret_display {
        SecretDisplay::Character(pool) => if auth.asking_for_secret {
            &&& shown.len() == typed.len()
            &&& if pool@.len() == 1 {
                forall|i: int| 0 <= i < shown.len() ==> shown[i] == pool@[0]
            } else {
                forall|i: int| 0 <= i < shown.len() ==> pool@.contains(#[trigger] shown[i])
            }
        } else {
            shown == typed
        },
        SecretDisplay::Hidden => shown == typed,
    }
}

/// The text the answer field shows for what has been typed.
pub fn secret_shown(auth: &AuthState) -> (r: String)
    requires
        auth.asking_for_secret && auth.secret_display is Character && auth.buffer@.len() > 0
            ==> auth.secret_display->Character_0@.len() > 0,
    ensures
        secret_shown_ok(*auth, r@),
{
    match &auth.secret_display {
        SecretDisplay::Character(pool) => {
            if !auth.asking_for_secret {
                return auth.buffer.clone();
            }
            let typed = chars_of(auth.buffer.as_str());
            let chars = chars_of(pool.as_str());
            let mut r = String::new();
            if chars.len() == 1 {
                let c = chars[0];
                let mut i: usize = 0;
                while i < typed.len()
                    invariant
                        i <= typed.len(),
                        r@.len() == i,
                        forall|j: int| 0 <= j < i ==> r@[j] == c,
                    decreases typed.len() - i,
                {
                    push_char(&mut r, c);
                    i += 1;
                }
            } else {
                let mut rng = fixed_rng();
                let mut i: usize = 0;
                while i < typed.len()
                    invariant
                        i <= typed.len(),
                        typed@.len() > 0 ==> chars@.len() > 0,
                        chars@ == pool@,
                        r@.len() == i,
                        forall|j: int| 0 <= j < i ==> pool@.contains(#[trigger] r@[j]),
                    decreases typed.len() - i,
                {
                    let k = pick_below(&mut rng, chars.len());
                    let c = chars[k];
                    assert(pool@[k as int] == c);
                    push_char(&mut r, c);
                    i += 1;
                }
            }
            r
        },
        SecretDisplay::Hidden => auth.buffer.clone(),
    }
}

} // verus!
