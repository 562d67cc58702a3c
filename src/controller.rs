use vstd::prelude::*;
use vstd::string::{is_ascii, is_ascii_spec_bytes, StringSliceAdditionalSpecFns};
use vstd::utf8::is_ascii_chars;

verus! {

/// A camera movement asked for from the keyboard.
#[derive(Clone, Copy, Debug, PartialEq, Eq, Structural)]
pub enum Direction {
    Forward,
    Backward,
    Left,
    Right,
}

/// The direction of each movement key: "w", "s", "a" and "d".
pub open spec fn key_direction(key: Seq<char>) -> Option<Direction> {
    if key == seq!['w'] {
        Some(Direction::Forward)
    } else if key == seq!['s'] {
        Some(Direction::Backward)
    } else if key == seq!['a'] {
        Some(Direction::Left)
    } else if key == seq!['d'] {
        Some(Direction::Right)
    } else {
        None
    }
}

/// A direction as a vector in the camera's own axes (right, up, forward).
pub open spec fn direction_vector(d: Direction) -> (int, int, int) {
    match d {
        Direction::Forward => (0, 0, 1),
        Direction::Backward => (0, 0, -1),
        Direction::Left => (-1, 0, 0),
        Direction::Right => (1, 0, 0),
    }
}

/// The movement that a key asks for, if any.
pub fn direction_for_key(key: &str) -> (r: Option<Direction>)
    ensures
        r == key_direction(key@),
{
    if !key.is_ascii() {
        proof {
            // Every movement key is ASCII.
            let k = key@;
            if k.len() == 1 && (k[0] == 'w' || k[0] == 's' || k[0] == 'a' || k[0] == 'd') {
                assert(is_ascii_chars(k));
            }
            assert(k.len() == 1 ==> seq![k[0]] =~= k);
        }
        return None;
    }
    let b = key.as_bytes();
    proof {
        is_ascii_spec_bytes(key);
    }
    if b.len() != 1 {
        return None;
    }
    let c = b[0];
    proof {
        assert(key@ =~= seq![key@[0]]);
        assert(key@[0] as u8 == c);
    }
    if c == 0x77u8 {
        Some(Direction::Forward)
    } else if c == 0x73u8 {
        Some(Direction::Backward)
    } else if c == 0x61u8 {
        Some(Direction::Left)
    } else if c == 0x64u8 {
        Some(Direction::Right)
    } else {
        None
    }
}

/// The unit vector of a direction in the camera's axes (right, up, forward).
/// It is never zero: exactly one component is 1 or -1.
pub fn direction_to_vector(d: Direction) -> (r: (i8, i8, i8))
    ensures
        (r.0 as int, r.1 as int, r.2 as int) == direction_vector(d),
        (r.0 as int) * (r.0 as int) + (r.1 as int) * (r.1 as int) + (r.2 as int) * (r.2 as int)
            == 1,
{
    let r: (i8, i8, i8) = match d {
        Direction::Forward => (0, 0, 1),
        Direction::Backward => (0, 0, -1),
        Direction::Left => (-1, 0, 0),
        Direction::Right => (1, 0, 0),
    };
    let (x, y, z) = r;
    assert((x as int) * (x as int) + (y as int) * (y as int) + (z as int) * (z as int) == 1)
        by (nonlinear_arith)
        requires
            (x == 0 && y == 0 && (z == 1 || z == -1)) || (y == 0 && z == 0 && (x == 1 || x == -1)),
    ;
    r
}

/// An input event, as the controller sees it.
#[derive(Clone, Copy, Debug, PartialEq, Eq, Structural)]
pub enum ControlEvent {
    /// A key went down; it asks for the given movement, if any.
    KeyDown(Option<Direction>),
    /// The pointer moved to this offset within the canvas.
    MouseMove(i32, i32),
    /// A mouse button went down on the canvas.
    MouseDown,
    /// A mouse button went up, or the pointer left the canvas.
    MouseUp,
}

/// What the surrounding application is to do after an event.
#[derive(Clone, Copy, Debug, PartialEq, Eq, Structural)]
pub struct Reaction {
    /// Move the camera in this direction.
    pub move_camera: Option<Direction>,
    /// Render again.
    pub rerender: bool,
}

/// The state that the application keeps between input events.
#[derive(Clone, Copy, Debug, PartialEq, Eq, Structural)]
pub struct Controller {
    /// Whether a mouse button is held on the canvas. It is tracked, and on
    /// purpose does not gate rotation.
    pub is_mouse_down: bool,
    /// Where the pointer was last seen, across.
    pub last_mouse_x: i32,
    /// Where the pointer was last seen, down.
    pub last_mouse_y: i32,
    /// The horizontal drag delta handed to the cube renderer.
    pub rotation_x: i64,
    /// The vertical drag delta handed to the cube renderer.
    pub rotation_y: i64,
}

impl Controller {
    /// No button held, pointer at the origin, no rotation.
    pub fn new() -> (r: Self)
        ensures
            !r.is_mouse_down,
            r.last_mouse_x == 0,
            r.last_mouse_y == 0,
            r.rotation_x == 0,
            r.rotation_y == 0,
    {
        Controller {
            is_mouse_down: false,
            last_mouse_x: 0,
            last_mouse_y: 0,
            rotation_x: 0,
            rotation_y: 0,
        }
    }

    /// Takes one event. A movement key moves the camera; any other key does
    /// nothing and asks for no render. A pointer move sets the drag delta to
    /// the distance from the last position, whether a button is held or not,
    /// and records the new position. Button events set the held flag.
    pub fn update(&mut self, event: ControlEvent) -> (r: Reaction)
        ensures
            match event {
                ControlEvent::KeyDown(d) => {
                    &&& *final(self) == *old(self)
                    &&& r == (Reaction { move_camera: d, rerender: d is Some })
                },
                ControlEvent::MouseMove(x, y) => {
                    &&& final(self).last_mouse_x == x
                    &&& final(self).last_mouse_y == y
                    &&& final(self).rotation_x == x - old(self).last_mouse_x
                    &&& final(self).rotation_y == y - old(self).last_mouse_y
                    &&& final(self).is_mouse_down == old(self).is_mouse_down
                    &&& r == (Reaction { move_camera: None, rerender: true })
                },
                ControlEvent::MouseDown => {
                    &&& *final(self) == (Controller { is_mouse_down: true, ..*old(self) })
                    &&& r == (Reaction { move_camera: None, rerender: true })
                },
                ControlEvent::MouseUp => {
                    &&& *final(self) == (Controller { is_mouse_down: false, ..*old(self) })
                    &&& r == (Reaction { move_camera: None, rerender: true })
                },
            },
    {
        match event {
            ControlEvent::KeyDown(d) => {
                match d {
                    Some(_) => Reaction { move_camera: d, rerender: true },
                    None => Reaction { move_camera: None, rerender: false },
                }
            },
            ControlEvent::MouseMove(x, y) => {
                self.rotation_x = x as i64 - self.last_mouse_x as i64;
                self.rotation_y = y as i64 - self.last_mouse_y as i64;
                self.last_mouse_x = x;
                self.last_mouse_y = y;
                Reaction { move_camera: None, rerender: true }
            },
            ControlEvent::MouseDown => {
                self.is_mouse_down = true;
                Reaction { move_camera: None, rerender: true }
            },
            ControlEvent::MouseUp => {
                self.is_mouse_down = false;
                Reaction { move_camera: None, rerender: true }
            },
        }
    }
}

/// A world axis that the model is turned about.
#[derive(Clone, Copy, Debug, PartialEq, Eq, Structural)]
pub enum Axis {
    X,
    Y,
}

/// One incremental turn of the model: about `axis`, by an angle proportional
/// to the drag distance `drag` (the renderer scales it to radians).
#[derive(Clone, Copy, Debug, PartialEq, Eq, Structural)]
pub struct RotationStep {
    pub axis: Axis,
    pub drag: i64,
}

/// The turns that one drag delta applies to the model, in the order in which
/// they are applied: the horizontal delta about the Y axis, then the vertical
/// delta about the X axis. Each is applied again on every change of the
/// delta that the renderer receives.
pub fn drag_rotation_steps(x_rotation: i64, y_rotation: i64) -> (r: Vec<RotationStep>)
    ensures
        r@ == seq![
            RotationStep { axis: Axis::Y, drag: x_rotation },
            RotationStep { axis: Axis::X, drag: y_rotation },
        ],
{
    let mut r: Vec<RotationStep> = Vec::new();
    r.push(RotationStep { axis: Axis::Y, drag: x_rotation });
    r.push(RotationStep { axis: Axis::X, drag: y_rotation });
    proof {
        assert(r@ =~= seq![
            RotationStep { axis: Axis::Y, drag: x_rotation },
            RotationStep { axis: Axis::X, drag: y_rotation },
        ]);
    }
    r
}

} // verus!
