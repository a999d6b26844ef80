use vstd::prelude::*;

verus! {

/// Number of keys on the pad.
pub const NUM_KEYS: usize = 16;

/// The lowest pressed key index in `keys`, scanning upward from `k`;
/// 16 when none of the keys from `k` on is pressed.
pub open spec fn first_pressed_from(keys: Seq<bool>, k: int) -> int
    decreases 16 - k,
{
    if k < 0 || k >= 16 {
        16
    } else if keys[k] {
        k
    } else {
        first_pressed_from(keys, k + 1)
    }
}

/// The lowest pressed key index, or 16 when no key is pressed.
pub open spec fn first_pressed(keys: Seq<bool>) -> int {
    first_pressed_from(keys, 0)
}

/// A snapshot of the 16 boolean key states, indexed 0 through 15. The
/// hosting application refreshes it from the physical input device; the
/// core only reads it.
pub struct Keypad {
    pub keys: Vec<bool>,
}

impl Keypad {
    pub open spec fn wf(&self) -> bool {
        self.keys@.len() == NUM_KEYS
    }

    pub open spec fn view(&self) -> Seq<bool> {
        self.keys@
    }

    /// A keypad with every key up.
    pub fn new() -> (k: Keypad)
        ensures
            k.wf(),
            forall|j: int| 0 <= j < NUM_KEYS ==> !k@[j],
    {
        let keys: Vec<bool> = vec![false; NUM_KEYS];
        Keypad { keys }
    }

    /// Records one key as pressed or released.
    pub fn set_key(&mut self, key_num: usize, pressed: bool)
        requires
            old(self).wf(),
            key_num < NUM_KEYS,
        ensures
            final(self).wf(),
            final(self)@ == old(self)@.update(key_num as int, pressed),
    {
        self.keys[key_num] = pressed;
    }

    /// Reads one key state.
    pub fn is_pressed(&self, key_num: usize) -> (r: bool)
        requires
            self.wf(),
            key_num < NUM_KEYS,
        ensures
            r == self@[key_num as int],
    {
        self.keys[key_num]
    }

    /// The lowest pressed key index, scanning 0 through 15 in order; 16
    /// when no key is pressed.
    pub fn first_pressed_key(&self) -> (r: usize)
        requires
            self.wf(),
        ensures
            r == first_pressed(self@),
            r <= 16,
    {
        let mut k: usize = 0;
        while k < 16
            invariant
                k <= 16,
                self.wf(),
                first_pressed(self@) == first_pressed_from(self@, k as int),
            decreases 16 - k,
        {
            if self.is_pressed(k) {
                return k;
            }
            k += 1;
        }
        16
    }
}

} // verus!
