//! The part of the camera that is decided without arithmetic on floats:
//! which keys move it, in which directions it is moving, and whether its
//! view has to be computed anew.

use vstd::prelude::*;

verus! {

/// A direction in which the camera moves.
#[derive(Clone, Copy, Debug, PartialEq, Eq, Structural)]
pub enum Direction {
    Still,
    Forward,
    Backward,
    Left,
    Right,
    Up,
    Down,
}

/// A key that the camera listens to.
#[derive(Clone, Copy, Debug, PartialEq, Eq, Structural)]
pub enum CameraKey {
    KeyW,
    KeyS,
    KeyA,
    KeyD,
    ControlLeft,
    Space,
    /// Held to move at half the speed.
    AltLeft,
    /// Any other key.
    Other,
}

impl Direction {
    /// The bit of the direction among the directions of movement.
    pub open spec fn mask(self) -> u32 {
        match self {
            Direction::Still => 0,
            Direction::Forward => 0x1,
            Direction::Backward => 0x2,
            Direction::Left => 0x4,
            Direction::Right => 0x8,
            Direction::Up => 0x10,
            Direction::Down => 0x20,
        }
    }

    /// The bit of the direction among the directions of movement.
    pub fn bit(self) -> (bit: u32)
        ensures
            bit == self.mask(),
    {
        match self {
            Direction::Still => 0,
            Direction::Forward => 0x1,
            Direction::Backward => 0x2,
            Direction::Left => 0x4,
            Direction::Right => 0x8,
            Direction::Up => 0x10,
            Direction::Down => 0x20,
        }
    }
}

impl CameraKey {
    /// The direction in which the key moves the camera, if it moves it.
    pub open spec fn moves(self) -> Option<Direction> {
        match self {
            CameraKey::KeyW => Some(Direction::Forward),
            CameraKey::KeyS => Some(Direction::Backward),
            CameraKey::KeyA => Some(Direction::Left),
            CameraKey::KeyD => Some(Direction::Right),
            CameraKey::ControlLeft => Some(Direction::Down),
            CameraKey::Space => Some(Direction::Up),
            _ => None,
        }
    }

    /// The direction in which the key moves the camera, if it moves it.
    pub fn direction(self) -> (direction: Option<Direction>)
        ensures
            direction == self.moves(),
    {
        match self {
            CameraKey::KeyW => Some(Direction::Forward),
            CameraKey::KeyS => Some(Direction::Backward),
            CameraKey::KeyA => Some(Direction::Left),
            CameraKey::KeyD => Some(Direction::Right),
            CameraKey::ControlLeft => Some(Direction::Down),
            CameraKey::Space => Some(Direction::Up),
            _ => None,
        }
    }
}

/// What the keys have made of the camera.
#[derive(Clone, Copy, Debug, PartialEq, Eq, Structural)]
pub struct Camera {
    /// The directions in which the camera is moving, one bit each.
    pub movement_direction: u32,
    /// Whether the camera moves at half the speed.
    pub slow: bool,
    /// Whether the camera has moved or turned since its view was computed.
    pub updated_view: bool,
}

/// The directions of movement after a key went down or up: its direction is
/// added or taken away.
pub open spec fn directions_after(directions: u32, key: CameraKey, pressed: bool) -> u32 {
    match key.moves() {
        Some(direction) => if pressed {
            directions | direction.mask()
        } else {
            directions & !direction.mask()
        },
        None => directions,
    }
}

impl Camera {
    /// A camera at rest.
    pub fn new() -> (camera: Camera)
        ensures
            camera == (Camera { movement_direction: 0, slow: false, updated_view: false }),
    {
        Camera { movement_direction: 0, slow: false, updated_view: false }
    }

    /// Takes in that `key` went down or up.
    pub fn handle_key_input(&mut self, key: CameraKey, pressed: bool)
        ensures
            final(self).movement_direction == directions_after(
                old(self).movement_direction,
                key,
                pressed,
            ),
            final(self).slow == if key == CameraKey::AltLeft {
                pressed
            } else {
                old(self).slow
            },
            final(self).updated_view == old(self).updated_view,
    {
        match key.direction() {
            Some(direction) => {
                if pressed {
                    self.movement_direction = self.movement_direction | direction.bit();
                } else {
                    self.movement_direction = self.movement_direction & !direction.bit();
                }
            },
            None => {},
        }
        match key {
            CameraKey::AltLeft => {
                self.slow = pressed;
            },
            _ => {},
        }
    }

    /// Whether the camera is moving in `direction`.
    pub fn is_moving(&self, direction: Direction) -> (moving: bool)
        ensures
            moving == (self.movement_direction & direction.mask() == direction.mask()),
    {
        self.movement_direction & direction.bit() == direction.bit()
    }

    /// Takes in that the camera has moved or turned.
    pub fn mark_updated(&mut self)
        ensures
            *final(self) == (Camera { updated_view: true, ..*old(self) }),
    {
        self.updated_view = true;
    }

    /// Whether the view has to be computed anew; the camera counts it as
    /// computed from then on.
    pub fn update_view(&mut self) -> (needed: bool)
        ensures
            needed == old(self).updated_view,
            *final(self) == (Camera { updated_view: false, ..*old(self) }),
    {
        let needed = self.updated_view;
        self.updated_view = false;
        needed
    }
}

/// A key that is pressed and let go leaves the other directions as they
/// were, and its own direction off.
pub proof fn lemma_press_release(directions: u32, key: CameraKey)
    ensures
        ({
            let pressed = directions_after(directions, key, true);
            let released = directions_after(pressed, key, false);
            match key.moves() {
                Some(d) => released == directions & !d.mask() && pressed & d.mask() == d.mask(),
                None => released == directions,
            }
        }),
{
    match key.moves() {
        Some(d) => {
            let m = d.mask();
            assert((directions | m) & !m == directions & !m && (directions | m) & m == m)
                by (bit_vector);
        },
        None => {},
    }
}

} // verus!
