//! The player's movement keys and the debug texture of the player's cube.
use vstd::prelude::*;

verus! {

/// Side length of the debug texture, in texels.
pub const TEXTURE_SIZE: usize = 8;

/// `1` when `b` holds, `0` otherwise.
pub open spec fn count(b: bool) -> int {
    if b {
        1
    } else {
        0
    }
}

/// The direction the movement keys ask for: `W` and `S` move forward and back along
/// `y`, `A` and `D` move along `x`, and opposite keys cancel.
pub fn movement_direction(w: bool, s: bool, a: bool, d: bool) -> (direction: (i32, i32))
    ensures
        direction.0 == count(a) - count(d),
        direction.1 == count(w) - count(s),
{
    let mut x: i32 = 0;
    let mut y: i32 = 0;
    if w {
        y = y + 1;
    }
    if s {
        y = y - 1;
    }
    if a {
        x = x + 1;
    }
    if d {
        x = x - 1;
    }
    (x, y)
}

/// How far the player moves in one frame for a direction: one unit along `x` per step of
/// the direction, five units along `z`.
pub fn player_step(direction: (i32, i32)) -> (step: (i32, i32))
    requires
        -1 <= direction.0 <= 1,
        -1 <= direction.1 <= 1,
    ensures
        step.0 == direction.0,
        step.1 == 5 * direction.1,
{
    (direction.0 * 1, direction.1 * 5)
}

/// The colours of the debug texture's first row: eight RGBA texels.
pub open spec fn first_row() -> Seq<u8> {
    seq![
        255, 102, 159, 255, 255, 159, 102, 255, 236, 255, 102, 255, 121, 255, 102, 255, 102, 255,
        198, 255, 102, 198, 255, 255, 121, 102, 255, 255, 236, 102, 255, 255,
    ]
}

/// Byte `i` of row `y` of the debug texture: the palette turned right by one texel
/// (four bytes) per row.
pub open spec fn texture_byte(y: int, i: int) -> u8 {
    first_row()[(i - 4 * y) % 32]
}

/// The debug texture's data: eight rows of eight RGBA texels, each row the row above
/// turned right by one texel, so that the colours run diagonally.
pub fn uv_debug_texture_data() -> (data: Vec<u8>)
    ensures
        data@.len() == TEXTURE_SIZE * TEXTURE_SIZE * 4,
        forall|y: int, i: int|
            0 <= y < 8 && 0 <= i < 32 ==> #[trigger] data@[32 * y + i] == texture_byte(y, i),
{
    let palette: [u8; 32] = [
        255, 102, 159, 255, 255, 159, 102, 255, 236, 255, 102, 255, 121, 255, 102, 255, 102, 255,
        198, 255, 102, 198, 255, 255, 121, 102, 255, 255, 236, 102, 255, 255,
    ];
    assert(palette@ =~= first_row());
    let mut data: Vec<u8> = Vec::new();
    let mut y: usize = 0;
    while y < TEXTURE_SIZE
        invariant
            palette@ == first_row(),
            y <= 8,
            data@.len() == 32 * y,
            forall|r: int, i: int|
                0 <= r < y && 0 <= i < 32 ==> #[trigger] data@[32 * r + i] == texture_byte(r, i),
        decreases 8 - y,
    {
        let mut i: usize = 0;
        while i < 32
            invariant
                palette@ == first_row(),
                y < 8,
                i <= 32,
                data@.len() == 32 * y + i,
                forall|r: int, j: int|
                    0 <= r < y && 0 <= j < 32 ==> #[trigger] data@[32 * r + j] == texture_byte(r, j),
                forall|j: int| 0 <= j < i ==> #[trigger] data@[32 * y + j] == texture_byte(y as int, j),
            decreases 32 - i,
        {
            let source = (i + 32 * 8 - 4 * y) % 32;
            assert(source as int == (i - 4 * y) % 32) by (nonlinear_arith)
                requires
                    source == (i + 32 * 8 - 4 * y) % 32,
                    y < 8,
            ;
            data.push(palette[source]);
            i = i + 1;
        }
        y = y + 1;
    }
    data
}

/// Law: each row of the debug texture is the row above turned right by one texel, and the
/// pattern repeats after eight rows.
pub proof fn lemma_texture_rows_rotate(y: int, i: int)
    requires
        0 <= i < 32,
    ensures
        texture_byte(y + 1, (i + 4) % 32) == texture_byte(y, i),
        texture_byte(y + 8, i) == texture_byte(y, i),
{
    assert(((i + 4) % 32 - 4 * (y + 1)) % 32 == (i - 4 * y) % 32) by (nonlinear_arith)
        requires
            0 <= i < 32,
    ;
    assert((i - 4 * (y + 8)) % 32 == (i - 4 * y) % 32) by (nonlinear_arith);
}

} // verus!
