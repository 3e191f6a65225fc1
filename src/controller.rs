use crate::input::{Key, KeyState};
use vstd::prelude::*;

verus! {

/// A fixed assignment of keys to one player's actions.
#[derive(Clone, Copy, Debug, PartialEq, Eq, Structural)]
pub enum ControllerLayout {
    WASD,
    Arrows,
}

/// The keys bound to each action of a layout.
#[derive(Clone, Copy, Debug, PartialEq, Eq, Structural)]
pub struct KeyBindings {
    pub accelerate: Key,
    pub brake: Key,
    pub steer_left: Key,
    pub steer_right: Key,
}

pub open spec fn bindings_of(layout: ControllerLayout) -> KeyBindings {
    match layout {
        ControllerLayout::WASD => KeyBindings {
            accelerate: Key::W,
            brake: Key::S,
            steer_left: Key::A,
            steer_right: Key::D,
        },
        ControllerLayout::Arrows => KeyBindings {
            accelerate: Key::Up,
            brake: Key::Down,
            steer_left: Key::Left,
            steer_right: Key::Right,
        },
    }
}

/// The keys that a layout reads.
pub open spec fn bound_keys(layout: ControllerLayout) -> Set<Key> {
    let b = bindings_of(layout);
    set![b.accelerate, b.brake, b.steer_left, b.steer_right]
}

/// +1 when only `plus` is held, -1 when only `minus` is, 0 otherwise.
pub open spec fn axis(keys: Set<Key>, plus: Key, minus: Key) -> int {
    (if keys.contains(plus) { 1int } else { 0int }) - (if keys.contains(minus) { 1int } else { 0int })
}

/// Throttle derived from held keys: +1 accelerate, -1 brake, 0 for neither or
/// both; always 0 for an inactive controller.
pub open spec fn throttle_for(layout: ControllerLayout, active: bool, keys: Set<Key>) -> int {
    let b = bindings_of(layout);
    if active { axis(keys, b.accelerate, b.brake) } else { 0 }
}

/// Steering derived from held keys: +1 right, -1 left, 0 for neither or both;
/// always 0 for an inactive controller.
pub open spec fn steer_for(layout: ControllerLayout, active: bool, keys: Set<Key>) -> int {
    let b = bindings_of(layout);
    if active { axis(keys, b.steer_right, b.steer_left) } else { 0 }
}

/// A controller after reading a key snapshot: layout and activity kept,
/// throttle and steering derived anew.
pub open spec fn controller_after(c: ControllerView, keys: Set<Key>) -> ControllerView {
    ControllerView {
        throttle: throttle_for(c.layout, c.active, keys),
        steer: steer_for(c.layout, c.active, keys),
        ..c
    }
}

/// The key bindings of a layout.
pub fn bindings(layout: ControllerLayout) -> (r: KeyBindings)
    ensures
        r == bindings_of(layout),
{
    match layout {
        ControllerLayout::WASD => KeyBindings {
            accelerate: Key::W,
            brake: Key::S,
            steer_left: Key::A,
            steer_right: Key::D,
        },
        ControllerLayout::Arrows => KeyBindings {
            accelerate: Key::Up,
            brake: Key::Down,
            steer_left: Key::Left,
            steer_right: Key::Right,
        },
    }
}

fn read_axis(keys: &KeyState, plus: Key, minus: Key) -> (r: i8)
    ensures
        r == axis(keys@, plus, minus),
{
    let p: i8 = if keys.is_down(plus) { 1 } else { 0 };
    let m: i8 = if keys.is_down(minus) { 1 } else { 0 };
    p - m
}

/// What a controller holds: its layout, whether it is active, and the
/// throttle and steering derived from the last key snapshot.
pub struct ControllerView {
    pub layout: ControllerLayout,
    pub active: bool,
    pub throttle: int,
    pub steer: int,
}

/// One local player's input: a fixed layout and the state derived from it.
#[derive(Clone, Copy, Debug)]
pub struct Controller {
    layout: ControllerLayout,
    active: bool,
    throttle: i8,
    steer: i8,
}

impl View for Controller {
    type V = ControllerView;

    closed spec fn view(&self) -> ControllerView {
        ControllerView {
            layout: self.layout,
            active: self.active,
            throttle: self.throttle as int,
            steer: self.steer as int,
        }
    }
}

impl Controller {
    /// A controller with the given layout, at rest.
    pub fn new(active: bool, layout: &ControllerLayout) -> (r: Controller)
        ensures
            r@ == (ControllerView { layout: *layout, active, throttle: 0, steer: 0 }),
    {
        Controller { layout: *layout, active, throttle: 0, steer: 0 }
    }

    /// Derives throttle and steering from the held keys of this layout.
    pub fn process_input(&mut self, keys: &KeyState)
        ensures
            final(self)@ == controller_after(old(self)@, keys@),
    {
        if self.active {
            let b = bindings(self.layout);
            self.throttle = read_axis(keys, b.accelerate, b.brake);
            self.steer = read_axis(keys, b.steer_right, b.steer_left);
        } else {
            self.throttle = 0;
            self.steer = 0;
        }
    }

    pub fn layout(&self) -> (r: ControllerLayout)
        ensures
            r == self@.layout,
    {
        self.layout
    }

    pub fn is_active(&self) -> (r: bool)
        ensures
            r == self@.active,
    {
        self.active
    }

    /// +1 accelerating, -1 braking, 0 neither.
    pub fn throttle(&self) -> (r: i8)
        ensures
            r == self@.throttle,
    {
        self.throttle
    }

    /// +1 steering right, -1 steering left, 0 straight.
    pub fn steer(&self) -> (r: i8)
        ensures
            r == self@.steer,
    {
        self.steer
    }
}

/// The WASD and arrow layouts share no key.
pub proof fn lemma_layouts_disjoint()
    ensures
        bound_keys(ControllerLayout::WASD).disjoint(bound_keys(ControllerLayout::Arrows)),
{
}

/// A controller's derived state does not change when a key outside its layout
/// is held: in particular, a key of one layout never moves the other.
pub proof fn lemma_reads_only_bound_keys(
    layout: ControllerLayout,
    active: bool,
    keys: Set<Key>,
    k: Key,
)
    requires
        !bound_keys(layout).contains(k),
    ensures
        throttle_for(layout, active, keys.insert(k)) == throttle_for(layout, active, keys),
        steer_for(layout, active, keys.insert(k)) == steer_for(layout, active, keys),
{
}

} // verus!
