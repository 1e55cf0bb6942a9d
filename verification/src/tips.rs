//! Picking the tip shown on a loading screen.

use vstd::prelude::*;
use rand::seq::SliceRandom;

verus! {

/// One element of `items` picked at random, by `SliceRandom::choose` of `rand`
/// with the thread-local generator. Trusted: as the crate documents, `None`
/// exactly when `items` is empty, and otherwise a reference to one of its
/// elements. Which element comes back is left open: it depends on chance.
/// The thread-local generator panics if the operating system cannot seed it;
/// nothing here rules that out.
#[verifier::external_body]
fn choose_random<'a, T>(items: &'a [T]) -> (r: Option<&'a T>)
    ensures
        r is None <==> items@.len() == 0,
        r matches Some(x) ==> items@.contains(*x),
{
    items.choose(&mut rand::thread_rng())
}

/// Whether `t` is the text of one of the tips.
pub open spec fn is_one_of(t: Seq<char>, tips: Seq<&str>) -> bool {
    exists|i: int| 0 <= i < tips.len() && #[trigger] tips[i]@ == t
}

/// The startup scene's tip: one of `tips` at random, or the greeting
/// `老师,欢迎回来!` when there is none.
pub fn pick_startup_tip(tips: &[&'static str]) -> (r: &'static str)
    ensures
        tips@.len() == 0 ==> r@ == "老师,欢迎回来!"@,
        tips@.len() > 0 ==> is_one_of(r@, tips@),
{
    match choose_random(tips) {
        Some(t) => *t,
        None => "老师,欢迎回来!",
    }
}

/// The tip of a chart: its own tip when it has one, otherwise one of `tips`
/// at random.
pub fn resolve_tip(own: Option<String>, tips: &[&str]) -> (r: String)
    requires
        own is Some || tips@.len() > 0,
    ensures
        own matches Some(t) ==> r@ == t@,
        own is None ==> is_one_of(r@, tips@),
{
    match own {
        Some(t) => t,
        None => {
            let picked = choose_random(tips);
            match picked {
                Some(t) => (*t).to_owned(),
                None => String::new(),
            }
        },
    }
}

} // verus!
