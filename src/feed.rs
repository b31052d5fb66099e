use vstd::prelude::*;

verus! {

/// One polled read of the match feed. Only `p1name`, `p2name` and `status`
/// carry meaning; the other fields take part in telling reads apart.
#[derive(Debug, Clone, Default)]
pub struct MatchState {
    pub p1name: String,
    pub p2name: String,
    pub p1total: String,
    pub p2total: String,
    pub status: String,
    pub alert: String,
    pub x: u8,
    pub remaining: String,
}

/// Two reads are the same when every field is.
pub open spec fn same_state(a: MatchState, b: MatchState) -> bool {
    &&& a.p1name@ == b.p1name@
    &&& a.p2name@ == b.p2name@
    &&& a.p1total@ == b.p1total@
    &&& a.p2total@ == b.p2total@
    &&& a.status@ == b.status@
    &&& a.alert@ == b.alert@
    &&& a.x == b.x
    &&& a.remaining@ == b.remaining@
}

impl PartialEq for MatchState {
    fn eq(&self, o: &MatchState) -> (r: bool) {
        self.p1name == o.p1name && self.p2name == o.p2name && self.p1total == o.p1total
            && self.p2total == o.p2total && self.status == o.status && self.alert == o.alert
            && self.x == o.x && self.remaining == o.remaining
    }
}

impl vstd::std_specs::cmp::PartialEqSpecImpl for MatchState {
    open spec fn obeys_eq_spec() -> bool {
        true
    }

    open spec fn eq_spec(&self, o: &MatchState) -> bool {
        same_state(*self, *o)
    }
}

/// Remembers the last read of the feed, so that a read that repeats it is
/// passed over.
pub struct MatchWatcher {
    pub last: Option<MatchState>,
}

/// Whether a read is new after `last`: the first read always is.
pub open spec fn is_fresh(last: Option<MatchState>, s: MatchState) -> bool {
    match last {
        Some(p) => !same_state(p, s),
        None => true,
    }
}

/// The read that a watcher remembers after seeing `s`.
pub open spec fn last_after(last: Option<MatchState>, s: MatchState) -> Option<MatchState> {
    if is_fresh(last, s) {
        Some(s)
    } else {
        last
    }
}

impl MatchState {
    /// A field-by-field copy.
    pub fn duplicate(&self) -> (r: MatchState)
        ensures
            r == *self,
    {
        MatchState {
            p1name: self.p1name.clone(),
            p2name: self.p2name.clone(),
            p1total: self.p1total.clone(),
            p2total: self.p2total.clone(),
            status: self.status.clone(),
            alert: self.alert.clone(),
            x: self.x,
            remaining: self.remaining.clone(),
        }
    }
}

impl MatchWatcher {
    /// A watcher that has seen nothing yet.
    pub fn new() -> (r: MatchWatcher)
        ensures
            r.last is None,
    {
        MatchWatcher { last: None }
    }

    /// Takes in a read. Hands it back when it differs from the one before,
    /// and then remembers it; a repeated read gives `None`.
    pub fn observe(&mut self, s: MatchState) -> (r: Option<MatchState>)
        ensures
            is_fresh(old(self).last, s) ==> r == Some(s),
            !is_fresh(old(self).last, s) ==> r is None,
            final(self).last == last_after(old(self).last, s),
    {
        let fresh = match &self.last {
            Some(p) => !(*p == s),
            None => true,
        };
        if fresh {
            self.last = Some(s.duplicate());
            Some(s)
        } else {
            None
        }
    }
}

/// A read that repeats the one just taken in is never handed on: whatever the
/// watcher held before, taking in `s1` and then an equal `s2` gives nothing
/// for `s2`.
pub proof fn lemma_repeat_is_quiet(last: Option<MatchState>, s1: MatchState, s2: MatchState)
    requires
        same_state(s1, s2),
    ensures
        !is_fresh(last_after(last, s1), s2),
{
}

} // verus!
