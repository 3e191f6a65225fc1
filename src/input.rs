use vstd::prelude::*;

verus! {

/// The keys that the game reads.
#[derive(Clone, Copy, Debug, PartialEq, Eq, Structural)]
pub enum Key {
    Escape,
    F1,
    F2,
    F3,
    F4,
    F5,
    F6,
    F7,
    F8,
    F9,
    F10,
    W,
    A,
    S,
    D,
    Up,
    Down,
    Left,
    Right,
}

/// Number of keys in `Key`.
pub const KEY_COUNT: usize = 19;

/// Position of a key in a key table.
pub open spec fn key_index(k: Key) -> int {
    match k {
        Key::Escape => 0,
        Key::F1 => 1,
        Key::F2 => 2,
        Key::F3 => 3,
        Key::F4 => 4,
        Key::F5 => 5,
        Key::F6 => 6,
        Key::F7 => 7,
        Key::F8 => 8,
        Key::F9 => 9,
        Key::F10 => 10,
        Key::W => 11,
        Key::A => 12,
        Key::S => 13,
        Key::D => 14,
        Key::Up => 15,
        Key::Down => 16,
        Key::Left => 17,
        Key::Right => 18,
    }
}

fn index_of(k: Key) -> (r: usize)
    ensures
        r == key_index(k),
        r < KEY_COUNT,
{
    match k {
        Key::Escape => 0,
        Key::F1 => 1,
        Key::F2 => 2,
        Key::F3 => 3,
        Key::F4 => 4,
        Key::F5 => 5,
        Key::F6 => 6,
        Key::F7 => 7,
        Key::F8 => 8,
        Key::F9 => 9,
        Key::F10 => 10,
        Key::W => 11,
        Key::A => 12,
        Key::S => 13,
        Key::D => 14,
        Key::Up => 15,
        Key::Down => 16,
        Key::Left => 17,
        Key::Right => 18,
    }
}

/// The function key `F<n>`, for `n` in 1..=10.
pub open spec fn function_key(n: int) -> Key
    recommends
        1 <= n <= 10,
{
    if n == 1 {
        Key::F1
    } else if n == 2 {
        Key::F2
    } else if n == 3 {
        Key::F3
    } else if n == 4 {
        Key::F4
    } else if n == 5 {
        Key::F5
    } else if n == 6 {
        Key::F6
    } else if n == 7 {
        Key::F7
    } else if n == 8 {
        Key::F8
    } else if n == 9 {
        Key::F9
    } else {
        Key::F10
    }
}

/// The function key `F<n>`, for `n` in 1..=10.
pub fn function_key_numbered(n: u8) -> (r: Key)
    requires
        1 <= n <= 10,
    ensures
        r == function_key(n as int),
{
    if n == 1 {
        Key::F1
    } else if n == 2 {
        Key::F2
    } else if n == 3 {
        Key::F3
    } else if n == 4 {
        Key::F4
    } else if n == 5 {
        Key::F5
    } else if n == 6 {
        Key::F6
    } else if n == 7 {
        Key::F7
    } else if n == 8 {
        Key::F8
    } else if n == 9 {
        Key::F9
    } else {
        Key::F10
    }
}

/// A snapshot of which keys are held down; its view is the set of held keys.
pub struct KeyState {
    down: Vec<bool>,
}

impl View for KeyState {
    type V = Set<Key>;

    closed spec fn view(&self) -> Set<Key> {
        Set::new(|k: Key| self.down@[key_index(k)])
    }
}

impl KeyState {
    #[verifier::type_invariant]
    spec fn well_formed(&self) -> bool {
        self.down@.len() == KEY_COUNT
    }

    /// A snapshot with no key held.
    pub fn new() -> (r: KeyState)
        ensures
            r@ == Set::<Key>::empty(),
    {
        let r = KeyState { down: vec![false; KEY_COUNT] };
        assert(r@ =~= Set::<Key>::empty());
        r
    }

    /// Marks `k` as held.
    pub fn press(&mut self, k: Key)
        ensures
            final(self)@ == old(self)@.insert(k),
    {
        proof {
            use_type_invariant(&*self);
        }
        let i = index_of(k);
        let mut down = self.down.clone();
        assert(down@ =~= self.down@);
        down.set(i, true);
        self.down = down;
        assert(self@ =~= old(self)@.insert(k)) by {
            assert forall|j: Key| #[trigger] self@.contains(j) == old(self)@.insert(k).contains(j) by {
                if key_index(j) == key_index(k) {
                    assert(j == k);
                }
            }
        }
    }

    /// Whether `k` is held.
    pub fn is_down(&self, k: Key) -> (r: bool)
        ensures
            r == self@.contains(k),
    {
        proof {
            use_type_invariant(self);
        }
        self.down[index_of(k)]
    }
}

} // verus!
