//! The input controller: which keys are down, whether the pointer is
//! grabbed, and what the keys ask of the camera and the light.
//!
//! The controller decides; it does not compute with numbers. What it hands
//! out are whole steps along the axes of movement and rotation, and the
//! constants by which the caller scales them.

use crate::scalar::Scalar;
use crate::vector::Vec3;
use vstd::prelude::*;

verus! {

/// The speed of the camera, in units per second, without the boost.
pub const BASE_SPEED: u32 = 10;

/// The factor by which the boost key multiplies the speed.
pub const BOOST_FACTOR: u32 = 3;

/// The bits of 2.5: the rate at which an arrow key turns the light, in
/// radians per second.
pub const LIGHT_RATE_BITS: u32 = 0x4020_0000;

/// The bits of 0.00015: the degrees by which the camera turns for one unit
/// of mouse movement on a viewport whose larger side is one pixel.
pub const MOUSE_SENSITIVITY_BITS: u32 = 0x391D_4952;

/// The bits of 1.54: the largest pitch, in radians, in either direction.
pub const PITCH_LIMIT_BITS: u32 = 0x3FC5_1EB8;

/// The bits of -1.54.
pub const NEG_PITCH_LIMIT_BITS: u32 = 0xBFC5_1EB8;

/// The bits of 5: how far in front of the origin the camera starts.
pub const START_DISTANCE_BITS: u32 = 0x40A0_0000;

/// The bits of 0.2, 1 and 0.05: the direction of the light at the start,
/// before it is scaled to length one.
pub const START_LIGHT_X_BITS: u32 = 0x3E4C_CCCD;

pub const START_LIGHT_Y_BITS: u32 = 0x3F80_0000;

pub const START_LIGHT_Z_BITS: u32 = 0x3D4C_CCCD;

/// The keys that mean something to the controller.
#[derive(Clone, Copy, Debug, PartialEq, Eq, Structural, Hash)]
pub enum Key {
    ArrowUp,
    ArrowDown,
    ArrowLeft,
    ArrowRight,
    KeyW,
    KeyS,
    KeyA,
    KeyD,
    Space,
    ShiftLeft,
    ControlLeft,
    Escape,
}

/// What the controller asks of the cursor.
#[derive(Clone, Copy, Debug, PartialEq, Eq, Structural)]
pub enum CursorAction {
    /// Leave the cursor as it is.
    Keep,
    /// Hide the cursor and confine it to the window.
    Grab,
    /// Show the cursor and let it go.
    Release,
}

/// The keys that are down.
#[derive(Clone, Copy, Debug, PartialEq, Eq, Structural)]
pub struct KeySet {
    pub arrow_up: bool,
    pub arrow_down: bool,
    pub arrow_left: bool,
    pub arrow_right: bool,
    pub key_w: bool,
    pub key_s: bool,
    pub key_a: bool,
    pub key_d: bool,
    pub space: bool,
    pub shift_left: bool,
    pub control_left: bool,
    pub escape: bool,
}

/// Whole steps of movement: forward, to the right and up. Each is -1, 0 or
/// 1, and two keys that pull in opposite directions give 0.
#[derive(Clone, Copy, Debug, PartialEq, Eq, Structural)]
pub struct MoveIntent {
    pub forward: i8,
    pub right: i8,
    pub up: i8,
}

/// Whole steps of rotation of the light about the X axis and about the Z
/// axis of the world. Each is -1, 0 or 1.
#[derive(Clone, Copy, Debug, PartialEq, Eq, Structural)]
pub struct LightIntent {
    pub about_x: i8,
    pub about_z: i8,
}

/// The keys, and whether the pointer is grabbed.
#[derive(Clone, Copy, Debug, PartialEq, Eq, Structural)]
pub struct Controller {
    pub keys: KeySet,
    pub grabbed: bool,
}

impl Key {
    /// Whether the key moves the camera.
    pub open spec fn moves(self) -> bool {
        self == Key::KeyW || self == Key::KeyS || self == Key::KeyA || self == Key::KeyD || self
            == Key::Space || self == Key::ShiftLeft
    }

    /// Whether the key turns the light.
    pub open spec fn turns_light(self) -> bool {
        self == Key::ArrowUp || self == Key::ArrowDown || self == Key::ArrowLeft || self
            == Key::ArrowRight
    }

    /// Whether the key changes what the image shows, so that what has been
    /// accumulated no longer counts.
    pub open spec fn disturbs(self) -> bool {
        self.moves() || self.turns_light()
    }

    /// Whether the key changes what the image shows.
    pub fn is_disturbing(self) -> (r: bool)
        ensures
            r == self.disturbs(),
    {
        match self {
            Key::ControlLeft | Key::Escape => false,
            _ => true,
        }
    }
}

/// 1 if the condition holds, else 0.
pub open spec fn unit(b: bool) -> int {
    if b {
        1
    } else {
        0
    }
}

impl View for KeySet {
    type V = Set<Key>;

    open spec fn view(&self) -> Set<Key> {
        Set::new(|k: Key| self.has(k))
    }
}

impl KeySet {
    /// Whether the key is down.
    pub open spec fn has(self, key: Key) -> bool {
        match key {
            Key::ArrowUp => self.arrow_up,
            Key::ArrowDown => self.arrow_down,
            Key::ArrowLeft => self.arrow_left,
            Key::ArrowRight => self.arrow_right,
            Key::KeyW => self.key_w,
            Key::KeyS => self.key_s,
            Key::KeyA => self.key_a,
            Key::KeyD => self.key_d,
            Key::Space => self.space,
            Key::ShiftLeft => self.shift_left,
            Key::ControlLeft => self.control_left,
            Key::Escape => self.escape,
        }
    }

    /// No key is down.
    pub fn new() -> (keys: KeySet)
        ensures
            keys@ == Set::<Key>::empty(),
    {
        let keys = KeySet {
            arrow_up: false,
            arrow_down: false,
            arrow_left: false,
            arrow_right: false,
            key_w: false,
            key_s: false,
            key_a: false,
            key_d: false,
            space: false,
            shift_left: false,
            control_left: false,
            escape: false,
        };
        assert(keys@ =~= Set::<Key>::empty());
        keys
    }

    /// Whether the key is down.
    pub fn contains(&self, key: Key) -> (r: bool)
        ensures
            r == self@.contains(key),
    {
        match key {
            Key::ArrowUp => self.arrow_up,
            Key::ArrowDown => self.arrow_down,
            Key::ArrowLeft => self.arrow_left,
            Key::ArrowRight => self.arrow_right,
            Key::KeyW => self.key_w,
            Key::KeyS => self.key_s,
            Key::KeyA => self.key_a,
            Key::KeyD => self.key_d,
            Key::Space => self.space,
            Key::ShiftLeft => self.shift_left,
            Key::ControlLeft => self.control_left,
            Key::Escape => self.escape,
        }
    }

    /// Sets whether the key is down.
    fn set(&mut self, key: Key, down: bool)
        ensures
            final(self).has(key) == down,
            forall|k: Key| k != key ==> final(self).has(k) == old(self).has(k),
    {
        match key {
            Key::ArrowUp => self.arrow_up = down,
            Key::ArrowDown => self.arrow_down = down,
            Key::ArrowLeft => self.arrow_left = down,
            Key::ArrowRight => self.arrow_right = down,
            Key::KeyW => self.key_w = down,
            Key::KeyS => self.key_s = down,
            Key::KeyA => self.key_a = down,
            Key::KeyD => self.key_d = down,
            Key::Space => self.space = down,
            Key::ShiftLeft => self.shift_left = down,
            Key::ControlLeft => self.control_left = down,
            Key::Escape => self.escape = down,
        }
    }

    /// Records that the key went down.
    pub fn insert(&mut self, key: Key)
        ensures
            final(self)@ == old(self)@.insert(key),
    {
        self.set(key, true);
        assert(self@ =~= old(self)@.insert(key));
    }

    /// Records that the key went up.
    pub fn remove(&mut self, key: Key)
        ensures
            final(self)@ == old(self)@.remove(key),
    {
        self.set(key, false);
        assert(self@ =~= old(self)@.remove(key));
    }
}

/// Whether one of the keys changes what the image shows.
pub open spec fn any_disturbs(keys: Set<Key>) -> bool {
    exists|k: Key| keys.contains(k) && #[trigger] k.disturbs()
}

/// Whether a frame is disturbed: a key that moves the camera or turns the
/// light is down, or the mouse has moved since the frame before.
pub open spec fn disturbed(keys: Set<Key>, mouse_moved: bool) -> bool {
    mouse_moved || any_disturbs(keys)
}

/// The steps of movement that the keys ask for.
pub open spec fn move_intent(keys: Set<Key>) -> MoveIntent {
    MoveIntent {
        forward: (unit(keys.contains(Key::KeyW)) - unit(keys.contains(Key::KeyS))) as i8,
        right: (unit(keys.contains(Key::KeyD)) - unit(keys.contains(Key::KeyA))) as i8,
        up: (unit(keys.contains(Key::Space)) - unit(keys.contains(Key::ShiftLeft))) as i8,
    }
}

/// The steps of rotation of the light that the keys ask for: the up arrow
/// turns it backward about X and the down arrow forward, the left arrow
/// backward about Z and the right arrow forward.
pub open spec fn light_intent(keys: Set<Key>) -> LightIntent {
    LightIntent {
        about_x: (unit(keys.contains(Key::ArrowDown)) - unit(keys.contains(Key::ArrowUp))) as i8,
        about_z: (unit(keys.contains(Key::ArrowRight)) - unit(keys.contains(Key::ArrowLeft))) as i8,
    }
}

/// The speed of the camera under the keys.
pub open spec fn speed(keys: Set<Key>) -> int {
    if keys.contains(Key::ControlLeft) {
        BASE_SPEED * BOOST_FACTOR
    } else {
        BASE_SPEED as int
    }
}

/// The pitch limited to what the camera may have, see [`Scalar::spec_clamp`].
pub open spec fn clamped_pitch(pitch: Scalar) -> Scalar {
    pitch.spec_clamp(Scalar { bits: NEG_PITCH_LIMIT_BITS }, Scalar { bits: PITCH_LIMIT_BITS })
}

/// The step along one axis that a pair of opposed keys asks for.
fn net(positive: bool, negative: bool) -> (step: i8)
    ensures
        step == unit(positive) - unit(negative),
{
    if positive == negative {
        0
    } else if positive {
        1
    } else {
        -1
    }
}

impl Controller {
    /// No key is down and the pointer is free.
    pub fn new() -> (c: Controller)
        ensures
            c.keys@ == Set::<Key>::empty(),
            !c.grabbed,
    {
        Controller { keys: KeySet::new(), grabbed: false }
    }

    /// Takes in that a key went down or up. The escape key, going down
    /// while the pointer is grabbed, lets the pointer go.
    pub fn key_event(&mut self, key: Key, pressed: bool) -> (action: CursorAction)
        ensures
            final(self).keys@ == if pressed {
                old(self).keys@.insert(key)
            } else {
                old(self).keys@.remove(key)
            },
            final(self).grabbed == (old(self).grabbed && !(pressed && key == Key::Escape)),
            action == if pressed && key == Key::Escape && old(self).grabbed {
                CursorAction::Release
            } else {
                CursorAction::Keep
            },
    {
        if pressed {
            let mut action = CursorAction::Keep;
            if key == Key::Escape && self.grabbed {
                self.grabbed = false;
                action = CursorAction::Release;
            }
            self.keys.insert(key);
            action
        } else {
            self.keys.remove(key);
            CursorAction::Keep
        }
    }

    /// Takes in that a mouse button went down or up. The left button, going
    /// down while the pointer is free, grabs the pointer.
    pub fn mouse_button(&mut self, left: bool, pressed: bool) -> (action: CursorAction)
        ensures
            final(self).keys == old(self).keys,
            final(self).grabbed == (old(self).grabbed || (left && pressed)),
            action == if left && pressed && !old(self).grabbed {
                CursorAction::Grab
            } else {
                CursorAction::Keep
            },
    {
        if left && pressed && !self.grabbed {
            self.grabbed = true;
            CursorAction::Grab
        } else {
            CursorAction::Keep
        }
    }

    /// Whether movement of the mouse turns the camera: only while the
    /// pointer is grabbed.
    pub fn takes_mouse_motion(&self) -> (r: bool)
        ensures
            r == self.grabbed,
    {
        self.grabbed
    }

    /// Whether the frame is disturbed, see [`disturbed`].
    pub fn is_disturbed(&self, mouse_moved: bool) -> (r: bool)
        ensures
            r == disturbed(self.keys@, mouse_moved),
    {
        let k = &self.keys;
        let by_key = k.arrow_up || k.arrow_down || k.arrow_left || k.arrow_right || k.key_w
            || k.key_s || k.key_a || k.key_d || k.space || k.shift_left;
        proof {
            if by_key {
                let witness = if k.arrow_up {
                    Key::ArrowUp
                } else if k.arrow_down {
                    Key::ArrowDown
                } else if k.arrow_left {
                    Key::ArrowLeft
                } else if k.arrow_right {
                    Key::ArrowRight
                } else if k.key_w {
                    Key::KeyW
                } else if k.key_s {
                    Key::KeyS
                } else if k.key_a {
                    Key::KeyA
                } else if k.key_d {
                    Key::KeyD
                } else if k.space {
                    Key::Space
                } else {
                    Key::ShiftLeft
                };
                assert(self.keys@.contains(witness) && witness.disturbs());
            }
        }
        mouse_moved || by_key
    }

    /// The steps of movement that the keys ask for.
    pub fn movement(&self) -> (m: MoveIntent)
        ensures
            m == move_intent(self.keys@),
            -1 <= m.forward <= 1,
            -1 <= m.right <= 1,
            -1 <= m.up <= 1,
    {
        MoveIntent {
            forward: net(self.keys.key_w, self.keys.key_s),
            right: net(self.keys.key_d, self.keys.key_a),
            up: net(self.keys.space, self.keys.shift_left),
        }
    }

    /// The steps of rotation of the light that the keys ask for.
    pub fn light_turn(&self) -> (l: LightIntent)
        ensures
            l == light_intent(self.keys@),
            -1 <= l.about_x <= 1,
            -1 <= l.about_z <= 1,
    {
        LightIntent {
            about_x: net(self.keys.arrow_down, self.keys.arrow_up),
            about_z: net(self.keys.arrow_right, self.keys.arrow_left),
        }
    }

    /// The speed of the camera: the base speed, three times as much while
    /// the boost key is down.
    pub fn camera_speed(&self) -> (s: u32)
        ensures
            s == speed(self.keys@),
    {
        if self.keys.control_left {
            BASE_SPEED * BOOST_FACTOR
        } else {
            BASE_SPEED
        }
    }
}

/// Where the camera starts: on the Z axis, five units in front of the
/// origin.
pub fn start_position() -> (p: Vec3)
    ensures
        p == Vec3::spec_from_bits(0, 0, START_DISTANCE_BITS),
{
    Vec3::from_bits(0, 0, START_DISTANCE_BITS)
}

/// The direction of the light at the start. It does not have length one;
/// the caller scales it.
pub fn start_light() -> (d: Vec3)
    ensures
        d == Vec3::spec_from_bits(START_LIGHT_X_BITS, START_LIGHT_Y_BITS, START_LIGHT_Z_BITS),
{
    Vec3::from_bits(START_LIGHT_X_BITS, START_LIGHT_Y_BITS, START_LIGHT_Z_BITS)
}

/// The number by which mouse movement is scaled: the larger side of the
/// viewport.
pub fn look_scale(width: u32, height: u32) -> (scale: u32)
    ensures
        scale >= width,
        scale >= height,
        scale == width || scale == height,
{
    if width >= height {
        width
    } else {
        height
    }
}

/// Limits a pitch to the closed interval from -1.54 to 1.54 radians. A NaN
/// is returned as it is.
pub fn clamp_pitch(pitch: Scalar) -> (limited: Scalar)
    ensures
        limited == clamped_pitch(pitch),
{
    pitch.clamp(Scalar { bits: NEG_PITCH_LIMIT_BITS }, Scalar { bits: PITCH_LIMIT_BITS })
}

/// Whatever the pitch was, if only it is a number: the limited pitch lies
/// between -1.54 and 1.54, and a pitch that lies between them is not changed.
pub proof fn lemma_pitch_stays_within_limits(pitch: Scalar)
    requires
        !pitch.spec_is_nan(),
    ensures
        (Scalar { bits: NEG_PITCH_LIMIT_BITS }).spec_le(clamped_pitch(pitch)),
        clamped_pitch(pitch).spec_le(Scalar { bits: PITCH_LIMIT_BITS }),
        (Scalar { bits: NEG_PITCH_LIMIT_BITS }).spec_le(pitch) && pitch.spec_le(
            Scalar { bits: PITCH_LIMIT_BITS },
        ) ==> clamped_pitch(pitch) == pitch,
        clamped_pitch(clamped_pitch(pitch)) == clamped_pitch(pitch),
{
}

} // verus!
