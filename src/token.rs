use vstd::prelude::*;

verus! {

/// A counting set of permits. Any holder may add a permit; the delivery loop
/// takes one to learn that it must stop.
pub struct CancelToken {
    permits: u64,
}

impl View for CancelToken {
    type V = nat;

    /// The number of permits waiting to be taken.
    closed spec fn view(&self) -> nat {
        self.permits as nat
    }
}

/// The count after one more permit: it grows by one until the machine limit.
pub open spec fn added_permit(n: nat) -> nat {
    if n < u64::MAX {
        n + 1
    } else {
        n
    }
}

impl CancelToken {
    /// A token with no permit.
    pub fn new() -> (r: CancelToken)
        ensures
            r@ == 0,
    {
        CancelToken { permits: 0 }
    }

    /// The number of permits waiting to be taken.
    pub fn permits(&self) -> (r: u64)
        ensures
            r as nat == self@,
    {
        self.permits
    }

    /// Adds one permit. Never fails; extra permits are harmless.
    pub fn cancel(&mut self)
        ensures
            final(self)@ == added_permit(old(self)@),
    {
        self.permits = self.permits.saturating_add(1);
    }

    /// Takes one permit if there is one.
    pub fn try_acquire(&mut self) -> (r: bool)
        ensures
            r == (old(self)@ > 0),
            final(self)@ == if r { (old(self)@ - 1) as nat } else { old(self)@ },
    {
        if self.permits > 0 {
            self.permits = self.permits - 1;
            true
        } else {
            false
        }
    }
}

} // verus!
