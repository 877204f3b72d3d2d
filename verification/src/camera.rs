//! Camera state and the routing of discrete key commands onto it.
//!
//! The camera holds a whole-unit translation in world space; every
//! directional key moves exactly one axis by exactly one unit.

use vstd::prelude::*;

verus! {

/// Camera translation in whole world units. `z` is unused by the 2D
/// projection but kept so the view transform stays a full 3D translation.
#[derive(Clone, Copy, PartialEq, Eq, Structural, Debug)]
pub struct CameraState {
    pub x: i32,
    pub y: i32,
    pub z: i32,
}

/// The keys the router distinguishes; every other key is `Other`.
#[derive(Clone, Copy, PartialEq, Eq, Structural, Debug)]
pub enum Key {
    Up,
    Down,
    Left,
    Right,
    Escape,
    Other,
}

/// What the application must do after a key event, besides repainting.
#[derive(Clone, Copy, PartialEq, Eq, Structural, Debug)]
pub enum Command {
    Nothing,
    Quit,
}

impl CameraState {
    /// The camera a fresh session starts with: no translation at all.
    pub fn origin() -> (c: CameraState)
        ensures
            c == (CameraState { x: 0, y: 0, z: 0 }),
    {
        CameraState { x: 0, y: 0, z: 0 }
    }
}

/// Change a key makes to the camera's x axis: +1 for Right, -1 for Left.
pub open spec fn key_dx(key: Key) -> int {
    match key {
        Key::Right => 1,
        Key::Left => -1,
        _ => 0,
    }
}

/// Change a key makes to the camera's y axis: +1 for Up, -1 for Down.
pub open spec fn key_dy(key: Key) -> int {
    match key {
        Key::Up => 1,
        Key::Down => -1,
        _ => 0,
    }
}

/// Whether a key is one of the four pan keys.
pub open spec fn is_directional(key: Key) -> bool {
    key == Key::Up || key == Key::Down || key == Key::Left || key == Key::Right
}

/// The key that undoes one press of `key`.
pub open spec fn opposite(key: Key) -> Key {
    match key {
        Key::Up => Key::Down,
        Key::Down => Key::Up,
        Key::Left => Key::Right,
        Key::Right => Key::Left,
        k => k,
    }
}

/// The camera after one key-down event: one axis nudged by one unit for a
/// directional key, untouched otherwise.
pub open spec fn spec_key_down(c: CameraState, key: Key) -> CameraState
    recommends
        i32::MIN < c.x < i32::MAX,
        i32::MIN < c.y < i32::MAX,
{
    CameraState {
        x: (c.x as int + key_dx(key)) as i32,
        y: (c.y as int + key_dy(key)) as i32,
        z: c.z,
    }
}

/// Route one key-down event: pan keys nudge exactly one camera axis by one
/// unit, Escape asks the application to quit, anything else is a no-op.
/// After a pan the caller must recompute and reapply the view transform.
pub fn on_key_down(cam: &mut CameraState, key: Key) -> (cmd: Command)
    requires
        key == Key::Right ==> old(cam).x < i32::MAX,
        key == Key::Left ==> old(cam).x > i32::MIN,
        key == Key::Up ==> old(cam).y < i32::MAX,
        key == Key::Down ==> old(cam).y > i32::MIN,
    ensures
        *final(cam) == spec_key_down(*old(cam), key),
        final(cam).x as int == old(cam).x as int + key_dx(key),
        final(cam).y as int == old(cam).y as int + key_dy(key),
        final(cam).z == old(cam).z,
        cmd == (if key == Key::Escape { Command::Quit } else { Command::Nothing }),
{
    match key {
        Key::Up => {
            cam.y = cam.y + 1;
            Command::Nothing
        }
        Key::Down => {
            cam.y = cam.y - 1;
            Command::Nothing
        }
        Key::Left => {
            cam.x = cam.x - 1;
            Command::Nothing
        }
        Key::Right => {
            cam.x = cam.x + 1;
            Command::Nothing
        }
        Key::Escape => Command::Quit,
        Key::Other => Command::Nothing,
    }
}

/// Route one key-up event: reserved for future held-key logic, today it
/// changes nothing and asks for nothing.
pub fn on_key_up(cam: &mut CameraState, key: Key) -> (cmd: Command)
    ensures
        *final(cam) == *old(cam),
        cmd == Command::Nothing,
{
    match key {
        _ => Command::Nothing,
    }
}

/// A pan key followed by its opposite returns the camera to where it was,
/// whatever state it started in.
pub proof fn lemma_opposite_key_round_trip(c: CameraState, key: Key)
    requires
        is_directional(key),
        i32::MIN < c.x < i32::MAX,
        i32::MIN < c.y < i32::MAX,
    ensures
        spec_key_down(spec_key_down(c, key), opposite(key)) == c,
{
}

} // verus!
