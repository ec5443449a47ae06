use vstd::prelude::*;

verus! {

/// The state of a key or button as the window system reports it.
#[derive(Clone, Copy, Debug, PartialEq, Eq, Structural)]
pub enum KeyState {
    Pressed,
    Released,
}

/// Whether a rising-edge detector that last saw `previous` fires on `current`.
pub open spec fn is_rising(previous: KeyState, current: KeyState) -> bool {
    previous == KeyState::Released && current == KeyState::Pressed
}

/// How many times a detector that starts with `previous` fires over `events`.
pub open spec fn fire_count(previous: KeyState, events: Seq<KeyState>) -> nat
    decreases events.len(),
{
    if events.len() == 0 {
        0
    } else {
        let here: nat = if is_rising(previous, events[0]) { 1 } else { 0 };
        here + fire_count(events[0], events.drop_first())
    }
}

/// Rising-edge detector: fires on a Released to Pressed transition only,
/// never on a held key or on a release.
#[derive(Clone, Copy, Debug, PartialEq, Eq, Structural)]
pub struct EdgeTrigger {
    pub previous: KeyState,
}

impl EdgeTrigger {
    /// A detector that has seen no event yet: the key counts as released.
    pub fn new() -> (r: EdgeTrigger)
        ensures
            r.previous == KeyState::Released,
    {
        EdgeTrigger { previous: KeyState::Released }
    }

    /// Feeds one event; returns whether it is a rising edge. The event is
    /// stored whether or not it fired.
    pub fn update(&mut self, current: KeyState) -> (fired: bool)
        ensures
            fired == is_rising(old(self).previous, current),
            final(self).previous == current,
    {
        let fired = self.previous == KeyState::Released && current == KeyState::Pressed;
        self.previous = current;
        fired
    }

    /// Feeds every event of `events` in order; returns how many fired.
    pub fn update_all(&mut self, events: &Vec<KeyState>) -> (count: u64)
        ensures
            count == fire_count(old(self).previous, events@),
            events@.len() > 0 ==> final(self).previous == events@.last(),
            events@.len() == 0 ==> final(self).previous == old(self).previous,
    {
        let start = self.previous;
        let mut count: u64 = 0;
        let mut i: usize = 0;
        assert(events@.subrange(0, events@.len() as int) =~= events@);
        while i < events.len()
            invariant
                i <= events@.len(),
                count <= i,
                i > 0 ==> self.previous == events@[i - 1],
                i == 0 ==> self.previous == start,
                fire_count(start, events@) == count + fire_count(
                    self.previous,
                    events@.subrange(i as int, events@.len() as int),
                ),
            decreases events@.len() - i,
        {
            let ghost rest = events@.subrange(i as int, events@.len() as int);
            assert(rest.drop_first() =~= events@.subrange(i + 1, events@.len() as int));
            assert(rest[0] == events@[i as int]);
            let fired = self.update(events[i]);
            if fired {
                count = count + 1;
            }
            i = i + 1;
        }
        assert(fire_count(self.previous, events@.subrange(i as int, events@.len() as int)) == 0);
        count
    }
}

/// A key held down fires its action once: over any number of consecutive
/// Pressed events, a detector fires exactly once if the key was released
/// before them, and never if it was already pressed.
pub proof fn lemma_held_key_fires_once(previous: KeyState, n: nat)
    requires
        n > 0,
    ensures
        fire_count(previous, Seq::new(n, |i: int| KeyState::Pressed)) == if previous
            == KeyState::Released {
            1nat
        } else {
            0nat
        },
    decreases n,
{
    let held = Seq::new(n, |i: int| KeyState::Pressed);
    assert(held[0] == KeyState::Pressed);
    if n > 1 {
        lemma_held_key_fires_once(KeyState::Pressed, (n - 1) as nat);
        assert(held.drop_first() =~= Seq::new((n - 1) as nat, |i: int| KeyState::Pressed));
    } else {
        assert(held.drop_first() =~= Seq::<KeyState>::empty());
        assert(fire_count(KeyState::Pressed, Seq::<KeyState>::empty()) == 0);
    }
}

} // verus!
