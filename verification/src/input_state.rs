//! The state of the keyboard and the mouse as the window reports it: the
//! keys held, the keys pressed since the frame began, the mouse buttons held
//! and where the cursor is.
use vstd::prelude::*;
use std::collections::HashSet;

verus! {

broadcast use vstd::std_specs::hash::group_hash_axioms;

/// A key of the keyboard, by code.
pub type KeyCode = u32;

/// A button of the mouse, by code.
pub type MouseButton = u8;

/// The input state; `P` is a cursor position.
pub struct Input<P> {
    held: HashSet<KeyCode>,
    just_pressed: HashSet<KeyCode>,
    mouse: HashSet<MouseButton>,
    mouse_position: P,
}

impl<P: Copy> Input<P> {
    /// The keys held.
    pub closed spec fn held(&self) -> Set<KeyCode> {
        self.held@
    }

    /// The keys pressed since the frame began.
    pub closed spec fn just_pressed(&self) -> Set<KeyCode> {
        self.just_pressed@
    }

    /// The mouse buttons held.
    pub closed spec fn mouse(&self) -> Set<MouseButton> {
        self.mouse@
    }

    /// Where the cursor is.
    pub closed spec fn position(&self) -> P {
        self.mouse_position
    }

    /// Nothing held, nothing pressed, the cursor at `origin`.
    pub fn new(origin: P) -> (i: Self)
        ensures
            i.held() == Set::<KeyCode>::empty(),
            i.just_pressed() == Set::<KeyCode>::empty(),
            i.mouse() == Set::<MouseButton>::empty(),
            i.position() == origin,
    {
        Input { held: HashSet::new(), just_pressed: HashSet::new(), mouse: HashSet::new(), mouse_position: origin }
    }

    /// Key `key` went down: it is held and pressed during this frame.
    pub fn pressed(&mut self, key: KeyCode)
        ensures
            final(self).held() == old(self).held().insert(key),
            final(self).just_pressed() == old(self).just_pressed().insert(key),
            final(self).mouse() == old(self).mouse(),
            final(self).position() == old(self).position(),
    {
        self.held.insert(key);
        self.just_pressed.insert(key);
    }

    /// Key `key` went up: it is no longer held; that it was pressed during
    /// this frame is kept.
    pub fn released(&mut self, key: KeyCode)
        ensures
            final(self).held() == old(self).held().remove(key),
            final(self).just_pressed() == old(self).just_pressed(),
            final(self).mouse() == old(self).mouse(),
            final(self).position() == old(self).position(),
    {
        self.held.remove(&key);
    }

    /// Whether `key` is held.
    pub fn is_pressed(&self, key: KeyCode) -> (r: bool)
        ensures
            r == self.held().contains(key),
    {
        self.held.contains(&key)
    }

    /// Whether `key` was pressed during this frame.
    pub fn is_just_pressed(&self, key: KeyCode) -> (r: bool)
        ensures
            r == self.just_pressed().contains(key),
    {
        self.just_pressed.contains(&key)
    }

    /// Mouse button `button` went down.
    pub fn mouse_pressed(&mut self, button: MouseButton)
        ensures
            final(self).mouse() == old(self).mouse().insert(button),
            final(self).held() == old(self).held(),
            final(self).just_pressed() == old(self).just_pressed(),
            final(self).position() == old(self).position(),
    {
        self.mouse.insert(button);
    }

    /// Mouse button `button` went up.
    pub fn mouse_release(&mut self, button: MouseButton)
        ensures
            final(self).mouse() == old(self).mouse().remove(button),
            final(self).held() == old(self).held(),
            final(self).just_pressed() == old(self).just_pressed(),
            final(self).position() == old(self).position(),
    {
        self.mouse.remove(&button);
    }

    /// Whether mouse button `button` is held.
    pub fn is_mouse_pressed(&self, button: MouseButton) -> (r: bool)
        ensures
            r == self.mouse().contains(button),
    {
        self.mouse.contains(&button)
    }

    /// Whether mouse button `button` is up.
    pub fn is_mousew_released(&self, button: MouseButton) -> (r: bool)
        ensures
            r == !self.mouse().contains(button),
    {
        !self.mouse.contains(&button)
    }

    /// The cursor moved to `pos`.
    pub fn set_mouse_position(&mut self, pos: P)
        ensures
            final(self).position() == pos,
            final(self).held() == old(self).held(),
            final(self).just_pressed() == old(self).just_pressed(),
            final(self).mouse() == old(self).mouse(),
    {
        self.mouse_position = pos;
    }

    /// Where the cursor is.
    pub fn mouse_position(&self) -> (p: P)
        ensures
            p == self.position(),
    {
        self.mouse_position
    }

    /// The frame ends: no key counts as just pressed any more; what is held
    /// stays held.
    pub fn end_frame(&mut self)
        ensures
            final(self).just_pressed() == Set::<KeyCode>::empty(),
            final(self).held() == old(self).held(),
            final(self).mouse() == old(self).mouse(),
            final(self).position() == old(self).position(),
    {
        self.just_pressed.clear();
    }
}

} // verus!
