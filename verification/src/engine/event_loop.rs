//! What the frame loop decides: the window's resolution, and how the keys
//! that are held down move and turn the player's entity.

use vstd::prelude::*;
use crate::engine::events::movement::{clamped, truncated};
use crate::engine::graphics::internal_object::graphics_object::ObjectView;
use crate::engine::graphics::util::master_graphics_list::MasterGraphicsList;
use crate::engine::key_states::{Action, Key, State, WindowEvent, keys_after};
use crate::engine::math::fixed::{Vector3, UNIT};

verus! {

/// The code of the key that moves the player up.
pub const KEY_W: i32 = 87;

/// The code of the key that moves the player left.
pub const KEY_A: i32 = 65;

/// The code of the key that moves the player down.
pub const KEY_S: i32 = 83;

/// The code of the key that moves the player right.
pub const KEY_D: i32 = 68;

/// The code of the key that turns the player to the left.
pub const KEY_Q: i32 = 81;

/// The code of the key that turns the player to the right.
pub const KEY_E: i32 = 69;

/// The code of the key that steps to the next smaller resolution.
pub const KEY_KP_SUBTRACT: i32 = 333;

/// The code of the key that steps to the next larger resolution.
pub const KEY_KP_ADD: i32 = 334;

/// The speed of the player, in lengths per second.
pub const MOVE_SPEED: i32 = 200_000;

/// The speed at which the player turns, in angle per second.
pub const ROTATION_SPEED: i32 = 2_000_000;

/// The resolutions that the window can have, largest first.
pub open spec fn resolutions() -> Seq<(u32, u32)> {
    seq![(3840u32, 2160u32), (2560u32, 1440u32), (1920u32, 1080u32), (1280u32, 720u32), (640u32, 360u32)]
}

/// The place in `resolutions` that an event leaves the window at: a press
/// of the subtract key steps to the next smaller resolution, a press of the
/// add key to the next larger one, as far as there is one.
pub open spec fn resolution_after(index: int, event: WindowEvent) -> int {
    match event {
        WindowEvent::Key(key, Action::Press) => if key.code == KEY_KP_SUBTRACT && index + 1
            < resolutions().len() {
            index + 1
        } else if key.code == KEY_KP_ADD && index > 0 {
            index - 1
        } else {
            index
        },
        _ => index,
    }
}

/// Whether an event is one of the two key presses that ask for another
/// resolution. Such an event is not passed on to the key state.
pub open spec fn asks_for_resolution(event: WindowEvent) -> bool {
    event matches WindowEvent::Key(key, Action::Press) && (key.code == KEY_KP_SUBTRACT || key.code
        == KEY_KP_ADD)
}

/// One axis of the direction that two opposite keys ask for.
pub open spec fn axis_of(keys: Set<i32>, forward: i32, backward: i32) -> int {
    (if keys.contains(forward) {
        UNIT as int
    } else {
        0
    }) - (if keys.contains(backward) {
        UNIT as int
    } else {
        0
    })
}

/// The direction in which the keys that are held down move the player.
pub open spec fn direction_of(keys: Set<i32>) -> Vector3 {
    Vector3 { x: axis_of(keys, KEY_D, KEY_A) as i32, y: axis_of(keys, KEY_W, KEY_S) as i32, z: 0 }
}

/// The angle by which the keys that are held down turn the player in a
/// frame of the given length.
pub open spec fn turn_of(keys: Set<i32>, delta_time: int) -> int {
    clamped(truncated(axis_of(keys, KEY_Q, KEY_E) * ROTATION_SPEED * delta_time, UNIT * UNIT))
}

/// The direction in which the keys that are held down move the player.
pub fn input_direction(state: &State) -> (direction: Vector3)
    ensures
        direction == direction_of(state@),
{
    let mut x: i32 = 0;
    let mut y: i32 = 0;
    if state.is_key_pressed(Key { code: KEY_W }) {
        y = y + UNIT;
    }
    if state.is_key_pressed(Key { code: KEY_S }) {
        y = y - UNIT;
    }
    if state.is_key_pressed(Key { code: KEY_A }) {
        x = x - UNIT;
    }
    if state.is_key_pressed(Key { code: KEY_D }) {
        x = x + UNIT;
    }
    Vector3 { x, y, z: 0 }
}

/// The angle by which the keys that are held down turn the player in a
/// frame of the given length.
pub fn input_turn(state: &State, delta_time: i32) -> (angle: i32)
    ensures
        angle == turn_of(state@, delta_time as int),
{
    let mut sense: i128 = 0;
    if state.is_key_pressed(Key { code: KEY_Q }) {
        sense = sense + 1_000_000;
    }
    if state.is_key_pressed(Key { code: KEY_E }) {
        sense = sense - 1_000_000;
    }
    assert(sense == axis_of(state@, KEY_Q, KEY_E));
    let rate: i128 = sense * 2_000_000;
    let time: i128 = delta_time as i128;
    assert(rate * time == axis_of(state@, KEY_Q, KEY_E) * ROTATION_SPEED * delta_time
        && -2_000_000_000_000 * 0x8000_0000 <= rate * time <= 2_000_000_000_000 * 0x8000_0000)
        by (nonlinear_arith)
        requires
            rate == axis_of(state@, KEY_Q, KEY_E) * ROTATION_SPEED,
            -2_000_000_000_000 <= rate <= 2_000_000_000_000,
            time == delta_time,
            -0x8000_0000 <= time <= 0x8000_0000,
    ;
    let product: i128 = rate * time;
    let angle: i128 = if product >= 0 {
        product / 1_000_000_000_000
    } else {
        -((-product) / 1_000_000_000_000)
    };
    if angle < i32::MIN as i128 {
        i32::MIN
    } else if angle > i32::MAX as i128 {
        i32::MAX
    } else {
        angle as i32
    }
}

/// The state of the frame loop: the live registry and the resolution of the
/// window.
pub struct EventLoop {
    master_graphics_list: MasterGraphicsList,
    current_resolution_index: usize,
    resolutions: Vec<(u32, u32)>,
}

impl EventLoop {
    /// The invariant, which `new` establishes and every operation keeps.
    pub closed spec fn well_formed(&self) -> bool {
        &&& self.master_graphics_list.well_formed()
        &&& self.resolutions@ == resolutions()
        &&& self.current_resolution_index < self.resolutions@.len()
    }

    /// The place of the window's resolution in `resolutions`.
    pub closed spec fn resolution_index(&self) -> int {
        self.current_resolution_index as int
    }

    /// The registry.
    pub closed spec fn registry(&self) -> MasterGraphicsList {
        self.master_graphics_list
    }

    /// A frame loop with an empty registry and a window of 1280 by 720.
    pub fn new() -> (event_loop: Self)
        ensures
            event_loop.well_formed(),
            event_loop.resolution_index() == 3,
            event_loop.registry()@ == Map::<Seq<char>, ObjectView>::empty(),
    {
        let mut resolutions: Vec<(u32, u32)> = Vec::new();
        resolutions.push((3840, 2160));
        resolutions.push((2560, 1440));
        resolutions.push((1920, 1080));
        resolutions.push((1280, 720));
        resolutions.push((640, 360));
        assert(resolutions@ =~= self::resolutions());
        EventLoop {
            master_graphics_list: MasterGraphicsList::new(),
            current_resolution_index: 3,
            resolutions,
        }
    }

    /// The width and the height of the window.
    pub fn current_resolution(&self) -> (resolution: (u32, u32))
        requires
            self.well_formed(),
        ensures
            resolution == resolutions()[self.resolution_index()],
    {
        self.resolutions[self.current_resolution_index]
    }

    /// Takes note of an event of the window. A key press that asks for
    /// another resolution changes the resolution, where there is another
    /// one, and returns the new width and height; every other event goes to
    /// the key state.
    pub fn handle_window_event(&mut self, state: &mut State, event: WindowEvent) -> (resized: Option<
        (u32, u32),
    >)
        requires
            old(self).well_formed(),
        ensures
            final(self).well_formed(),
            final(self).registry() == old(self).registry(),
            final(self).resolution_index() == resolution_after(old(self).resolution_index(), event),
            final(state)@ == if asks_for_resolution(event) {
                old(state)@
            } else {
                keys_after(old(state)@, event)
            },
            resized == if final(self).resolution_index() != old(self).resolution_index() {
                Some(resolutions()[final(self).resolution_index()])
            } else {
                None
            },
    {
        match event {
            WindowEvent::Key(key, Action::Press) => {
                if key.code == KEY_KP_SUBTRACT {
                    if self.current_resolution_index + 1 < self.resolutions.len() {
                        self.current_resolution_index += 1;
                        return Some(self.resolutions[self.current_resolution_index]);
                    }
                    return None;
                }
                if key.code == KEY_KP_ADD {
                    if self.current_resolution_index > 0 {
                        self.current_resolution_index -= 1;
                        return Some(self.resolutions[self.current_resolution_index]);
                    }
                    return None;
                }
            },
            _ => {},
        }
        state.handle_key_event(event);
        None
    }

    /// The registry.
    pub fn get_master_graphics_list(&self) -> (list: &MasterGraphicsList)
        ensures
            *list == self.registry(),
    {
        &self.master_graphics_list
    }

    /// The registry, to be changed where it stands.
    pub fn get_master_graphics_list_mut(&mut self) -> (list: &mut MasterGraphicsList)
        ensures
            *list == old(self).registry(),
            *final(list) == final(self).registry(),
            final(self).resolution_index() == old(self).resolution_index(),
            final(list).well_formed() && old(self).well_formed() ==> final(self).well_formed(),
    {
        &mut self.master_graphics_list
    }
}

} // verus!
