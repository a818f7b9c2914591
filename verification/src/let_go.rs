//! The subscribers that are no more.

use crate::audio_channel::Subscription;
use crate::subscriber::Retired;
use vstd::prelude::*;

verus! {

/// The subscribers that were let go, each with the record that it left with. Only a subscriber that
/// is given up goes into it.
#[verifier::reject_recursive_types(S)]
pub struct LetGo<S> {
    subscriptions: Ghost<Seq<Subscription<S>>>,
}

impl<S> View for LetGo<S> {
    type V = Seq<Subscription<S>>;

    closed spec fn view(&self) -> Seq<Subscription<S>> {
        self.subscriptions@
    }
}

impl<S> LetGo<S> {
    /// Nobody was let go yet.
    pub fn new() -> (none: Self)
        ensures
            none@ == Seq::<Subscription<S>>::empty(),
    {
        LetGo { subscriptions: Ghost(Seq::empty()) }
    }

    /// Gives up `retired`, if there is one, and with it the sending half of its channel.
    pub fn let_go(&mut self, retired: Option<Retired<S>>)
        ensures
            final(self)@ == (match retired {
                Some(gone) => old(self)@.push(gone@),
                None => old(self)@,
            }),
    {
        if let Some(gone) = retired {
            self.subscriptions = Ghost(self.subscriptions@.push(gone@));
        }
    }
}

} // verus!
