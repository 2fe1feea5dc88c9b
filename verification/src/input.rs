//! Keyboard movement state of the preview player, and the integer data that the
//! renderer uploads: triangle indices of quads and little-endian index bytes.
use crate::text::same_text;
use vstd::prelude::*;

verus! {

broadcast use vstd::string::group_string_axioms;

/// Which movement keys are held.
#[derive(Clone, Copy, PartialEq, Eq, Debug)]
pub struct InputState {
    pub forward: bool,
    pub backward: bool,
    pub left: bool,
    pub right: bool,
}

/// The movement key that a key name stands for.
#[derive(Clone, Copy, PartialEq, Eq, Debug)]
pub enum MoveKey {
    Forward,
    Backward,
    Left,
    Right,
}

/// Arrow keys and W/A/S/D, in either case.
pub open spec fn move_key_of(key: Seq<char>) -> Option<MoveKey> {
    if key == "ArrowUp"@ || key == "w"@ || key == "W"@ {
        Some(MoveKey::Forward)
    } else if key == "ArrowDown"@ || key == "s"@ || key == "S"@ {
        Some(MoveKey::Backward)
    } else if key == "ArrowLeft"@ || key == "a"@ || key == "A"@ {
        Some(MoveKey::Left)
    } else if key == "ArrowRight"@ || key == "d"@ || key == "D"@ {
        Some(MoveKey::Right)
    } else {
        None
    }
}

/// The state after a movement key is pressed or released.
pub open spec fn with_key(s: InputState, key: MoveKey, pressed: bool) -> InputState {
    match key {
        MoveKey::Forward => InputState { forward: pressed, ..s },
        MoveKey::Backward => InputState { backward: pressed, ..s },
        MoveKey::Left => InputState { left: pressed, ..s },
        MoveKey::Right => InputState { right: pressed, ..s },
    }
}

/// One axis from two opposing keys: -1, 0 or 1.
pub open spec fn axis(negative: bool, positive: bool) -> int {
    (if positive {
        1int
    } else {
        0int
    }) - (if negative {
        1int
    } else {
        0int
    })
}

/// The direction the held keys ask for: `x` from left to right, `y` from forward
/// to backward; `None` when they cancel out or none is held.
pub open spec fn axes_of(s: InputState) -> Option<(int, int)> {
    let x = axis(s.left, s.right);
    let y = axis(s.forward, s.backward);
    if x == 0 && y == 0 {
        None
    } else {
        Some((x, y))
    }
}

fn key_value(b: bool) -> (r: i32)
    ensures
        r == (if b {
            1int
        } else {
            0int
        }),
{
    if b {
        1
    } else {
        0
    }
}

impl InputState {
    /// No key held.
    pub fn new() -> (s: Self)
        ensures
            !s.forward && !s.backward && !s.left && !s.right,
    {
        InputState { forward: false, backward: false, left: false, right: false }
    }

    /// Records a key press or release; returns whether the key moves the player
    /// (other keys leave the state as it is).
    pub fn set_key_state(&mut self, key: &str, pressed: bool) -> (handled: bool)
        ensures
            handled == (move_key_of(key@) is Some),
            *final(self) == match move_key_of(key@) {
                Some(k) => with_key(*old(self), k, pressed),
                None => *old(self),
            },
    {
        if same_text(key, "ArrowUp") || same_text(key, "w") || same_text(key, "W") {
            self.forward = pressed;
        } else if same_text(key, "ArrowDown") || same_text(key, "s") || same_text(key, "S") {
            self.backward = pressed;
        } else if same_text(key, "ArrowLeft") || same_text(key, "a") || same_text(key, "A") {
            self.left = pressed;
        } else if same_text(key, "ArrowRight") || same_text(key, "d") || same_text(key, "D") {
            self.right = pressed;
        } else {
            return false;
        }
        true
    }

    /// The unnormalised direction of movement.
    pub fn axes(&self) -> (r: Option<(i32, i32)>)
        ensures
            match r {
                None => axes_of(*self) is None,
                Some((x, y)) => axes_of(*self) == Some((x as int, y as int)),
            },
    {
        let x = key_value(self.right) - key_value(self.left);
        let y = key_value(self.backward) - key_value(self.forward);
        if x == 0 && y == 0 {
            None
        } else {
            Some((x, y))
        }
    }
}

/// Pressing a movement key and releasing it again leaves the state as before the
/// press when the key was not held.
pub proof fn law_press_release_restores(s: InputState, key: MoveKey)
    requires
        match key {
            MoveKey::Forward => !s.forward,
            MoveKey::Backward => !s.backward,
            MoveKey::Left => !s.left,
            MoveKey::Right => !s.right,
        },
    ensures
        with_key(with_key(s, key, true), key, false) == s,
{
}

/// Opposing keys held together cancel out.
pub proof fn law_opposing_keys_cancel(s: InputState)
    requires
        s.forward == s.backward,
        s.left == s.right,
    ensures
        axes_of(s) is None,
{
}

/// The six indices of the two triangles of a quad whose four corners start at
/// vertex `base`.
pub fn quad_indices(base: u32) -> (r: [u32; 6])
    requires
        base <= u32::MAX - 3,
    ensures
        r@ == seq![base, (base + 1) as u32, (base + 2) as u32, base, (base + 2) as u32, (base + 3) as u32],
{
    let r = [base, base + 1, base + 2, base, base + 2, base + 3];
    assert(r@ =~= seq![
        base,
        (base + 1) as u32,
        (base + 2) as u32,
        base,
        (base + 2) as u32,
        (base + 3) as u32,
    ]);
    r
}

/// Indices of a chunk's mesh moved behind `base` earlier vertices.
pub fn offset_indices(indices: &[u32], base: u32) -> (r: Vec<u32>)
    requires
        forall|i: int| 0 <= i < indices@.len() ==> #[trigger] indices@[i] + base <= u32::MAX,
    ensures
        r@.len() == indices@.len(),
        forall|i: int| 0 <= i < indices@.len() ==> #[trigger] r@[i] == indices@[i] + base,
{
    let mut out: Vec<u32> = Vec::with_capacity(indices.len());
    let mut i: usize = 0;
    while i < indices.len()
        invariant
            i <= indices.len(),
            out@.len() == i,
            forall|j: int| 0 <= j < indices@.len() ==> #[trigger] indices@[j] + base <= u32::MAX,
            forall|j: int| 0 <= j < i ==> #[trigger] out@[j] == indices@[j] + base,
        decreases indices.len() - i,
    {
        out.push(indices[i] + base);
        i = i + 1;
    }
    out
}

/// The little-endian bytes of a `u32`.
pub open spec fn le_bytes(v: u32) -> Seq<u8> {
    seq![
        (v % 0x100) as u8,
        ((v / 0x100) % 0x100) as u8,
        ((v / 0x1_0000) % 0x100) as u8,
        (v / 0x100_0000) as u8,
    ]
}

/// The little-endian bytes of each value, one after another.
pub open spec fn le_bytes_of(values: Seq<u32>) -> Seq<u8>
    decreases values.len(),
{
    if values.len() == 0 {
        Seq::empty()
    } else {
        le_bytes_of(values.drop_last()) + le_bytes(values.last())
    }
}

fn push_le_bytes(out: &mut Vec<u8>, v: u32)
    ensures
        final(out)@ == old(out)@ + le_bytes(v),
{
    let b0 = (v & 0xff) as u8;
    let b1 = ((v >> 8) & 0xff) as u8;
    let b2 = ((v >> 16) & 0xff) as u8;
    let b3 = (v >> 24) as u8;
    assert(v & 0xff == v % 0x100) by (bit_vector);
    assert((v >> 8) & 0xff == (v / 0x100) % 0x100) by (bit_vector);
    assert((v >> 16) & 0xff == (v / 0x1_0000) % 0x100) by (bit_vector);
    assert(v >> 24 == v / 0x100_0000) by (bit_vector);
    out.push(b0);
    out.push(b1);
    out.push(b2);
    out.push(b3);
    assert(final(out)@ =~= old(out)@ + le_bytes(v));
}

/// The bytes of index data as the GPU buffer takes them.
pub fn u32_bytes(values: &[u32]) -> (r: Vec<u8>)
    ensures
        r@ == le_bytes_of(values@),
{
    let mut bytes: Vec<u8> = Vec::new();
    let mut i: usize = 0;
    while i < values.len()
        invariant
            i <= values.len(),
            bytes@ == le_bytes_of(values@.take(i as int)),
        decreases values.len() - i,
    {
        assert(values@.take(i + 1).drop_last() =~= values@.take(i as int));
        assert(values@.take(i + 1).last() == values@[i as int]);
        push_le_bytes(&mut bytes, values[i]);
        i = i + 1;
    }
    assert(values@.take(values.len() as int) =~= values@);
    bytes
}

/// Each value takes four bytes.
pub proof fn law_u32_bytes_length(values: Seq<u32>)
    ensures
        le_bytes_of(values).len() == 4 * values.len(),
    decreases values.len(),
{
    if values.len() > 0 {
        law_u32_bytes_length(values.drop_last());
    }
}

/// The movement keys: the up arrow, `w` and `W` move forward; the down arrow, `s`
/// and `S` backward; the left arrow, `a` and `A` left; the right arrow, `d` and `D`
/// right; no other key moves the player.
pub proof fn law_movement_keys(key: Seq<char>)
    ensures
        move_key_of(key) == Some(MoveKey::Forward) <==> (key == "ArrowUp"@ || key == "w"@ || key
            == "W"@),
        move_key_of(key) == Some(MoveKey::Backward) <==> (key == "ArrowDown"@ || key == "s"@
            || key == "S"@),
        move_key_of(key) == Some(MoveKey::Left) <==> (key == "ArrowLeft"@ || key == "a"@ || key
            == "A"@),
        move_key_of(key) == Some(MoveKey::Right) <==> (key == "ArrowRight"@ || key == "d"@ || key
            == "D"@),
{
    reveal_strlit("ArrowUp");
    reveal_strlit("w");
    reveal_strlit("W");
    reveal_strlit("ArrowDown");
    reveal_strlit("s");
    reveal_strlit("S");
    reveal_strlit("ArrowLeft");
    reveal_strlit("a");
    reveal_strlit("A");
    reveal_strlit("ArrowRight");
    reveal_strlit("d");
    reveal_strlit("D");
    assert("ArrowUp"@.len() == 7 && "ArrowUp"@[0] == 'A');
    assert("w"@.len() == 1 && "w"@[0] == 'w');
    assert("W"@.len() == 1 && "W"@[0] == 'W');
    assert("ArrowDown"@.len() == 9 && "ArrowDown"@[0] == 'A');
    assert("s"@.len() == 1 && "s"@[0] == 's');
    assert("S"@.len() == 1 && "S"@[0] == 'S');
    assert("ArrowLeft"@.len() == 9 && "ArrowLeft"@[0] == 'A');
    assert("a"@.len() == 1 && "a"@[0] == 'a');
    assert("A"@.len() == 1 && "A"@[0] == 'A');
    assert("ArrowRight"@.len() == 10 && "ArrowRight"@[0] == 'A');
    assert("d"@.len() == 1 && "d"@[0] == 'd');
    assert("D"@.len() == 1 && "D"@[0] == 'D');
    assert("ArrowDown"@[5] == 'D' && "ArrowLeft"@[5] == 'L');
}

/// Pressing or releasing a movement key sets exactly its own direction and leaves
/// the other three as they were.
pub proof fn law_key_sets_its_direction(s: InputState, key: MoveKey, pressed: bool)
    ensures
        with_key(s, key, pressed).forward == (if key == MoveKey::Forward {
            pressed
        } else {
            s.forward
        }),
        with_key(s, key, pressed).backward == (if key == MoveKey::Backward {
            pressed
        } else {
            s.backward
        }),
        with_key(s, key, pressed).left == (if key == MoveKey::Left {
            pressed
        } else {
            s.left
        }),
        with_key(s, key, pressed).right == (if key == MoveKey::Right {
            pressed
        } else {
            s.right
        }),
{
}

/// The direction of held keys: right minus left across, backward minus forward
/// along; none when both cancel.
pub proof fn law_axes_from_keys(s: InputState)
    ensures
        axes_of(s) is None <==> (s.left == s.right && s.forward == s.backward),
        axes_of(s) matches Some((x, y)) ==> x == (if s.right {
            1int
        } else {
            0int
        }) - (if s.left {
            1int
        } else {
            0int
        }) && y == (if s.backward {
            1int
        } else {
            0int
        }) - (if s.forward {
            1int
        } else {
            0int
        }),
{
}

} // verus!
