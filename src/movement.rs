use bevy::input::keyboard::KeyCode;
use bevy::input::Input;
use vstd::prelude::*;

verus! {

#[verifier::external_type_specification]
#[verifier::external_body]
#[verifier::reject_recursive_types(T)]
pub struct ExInput<T: Copy + Eq + std::hash::Hash + Send + Sync + 'static>(Input<T>);

#[verifier::external_type_specification]
#[verifier::external_body]
pub struct ExKeyCode(KeyCode);

/// One of the four arrow keys that steer movable objects.
#[derive(Clone, Copy, Debug, PartialEq, Eq)]
pub enum Arrow {
    Up,
    Down,
    Left,
    Right,
}

/// The arrow keys that the engine's keyboard state reports as held down.
pub uninterp spec fn held_arrows(input: Input<KeyCode>) -> Set<Arrow>;

/// Relies on bevy's `Input::pressed`: whether the key is in the set of keys
/// currently held down.
#[verifier::external_body]
fn arrow_held(input: &Input<KeyCode>, arrow: Arrow) -> (r: bool)
    ensures
        r == held_arrows(*input).contains(arrow),
{
    input.pressed(
        match arrow {
            Arrow::Up => KeyCode::Up,
            Arrow::Down => KeyCode::Down,
            Arrow::Left => KeyCode::Left,
            Arrow::Right => KeyCode::Right,
        },
    )
}

/// Which of the four arrow keys are held down during a frame.
#[derive(Clone, Copy, Debug, PartialEq, Eq)]
pub struct ArrowKeys {
    pub up: bool,
    pub down: bool,
    pub left: bool,
    pub right: bool,
}

/// The unscaled direction in which a movable object travels: a sum of one unit
/// contribution per held key, on the horizontal (`x`) and vertical (`y`) axes.
#[derive(Clone, Copy, Debug, PartialEq, Eq)]
pub struct Direction {
    pub x: i8,
    pub y: i8,
}

/// One unit towards the positive end of an axis when `pos` is held, one unit
/// towards the negative end when `neg` is held; both cancel.
pub open spec fn axis(pos: bool, neg: bool) -> int {
    (if pos { 1int } else { 0int }) - (if neg { 1int } else { 0int })
}

impl ArrowKeys {
    /// Reads which arrow keys the engine's keyboard state holds down.
    pub fn from_input(input: &Input<KeyCode>) -> (k: ArrowKeys)
        ensures
            k.up == held_arrows(*input).contains(Arrow::Up),
            k.down == held_arrows(*input).contains(Arrow::Down),
            k.left == held_arrows(*input).contains(Arrow::Left),
            k.right == held_arrows(*input).contains(Arrow::Right),
    {
        ArrowKeys {
            up: arrow_held(input, Arrow::Up),
            down: arrow_held(input, Arrow::Down),
            left: arrow_held(input, Arrow::Left),
            right: arrow_held(input, Arrow::Right),
        }
    }
}

/// Sums the unit contributions of the held keys: up raises `y`, down lowers it,
/// right raises `x`, left lowers it.
pub fn direction(keys: &ArrowKeys) -> (d: Direction)
    ensures
        d.x == axis(keys.right, keys.left),
        d.y == axis(keys.up, keys.down),
{
    let mut d = Direction { x: 0, y: 0 };
    if keys.up {
        d.y = d.y + 1;
    }
    if keys.down {
        d.y = d.y - 1;
    }
    if keys.left {
        d.x = d.x - 1;
    }
    if keys.right {
        d.x = d.x + 1;
    }
    d
}

/// The direction in which the movable objects travel this frame, from the arrow
/// keys that the engine's keyboard state holds down.
pub fn movement_direction(input: &Input<KeyCode>) -> (d: Direction)
    ensures
        d.x == axis(
            held_arrows(*input).contains(Arrow::Right),
            held_arrows(*input).contains(Arrow::Left),
        ),
        d.y == axis(
            held_arrows(*input).contains(Arrow::Up),
            held_arrows(*input).contains(Arrow::Down),
        ),
{
    let keys = ArrowKeys::from_input(input);
    direction(&keys)
}

} // verus!
