use vstd::prelude::*;

verus! {

/// Width and height, in pixels, of the UV debug texture.
pub const TEXTURE_SIZE: usize = 8;

/// Bytes in one row of the texture: four (RGBA) per pixel.
pub const ROW_BYTES: usize = TEXTURE_SIZE * 4;

/// The first row of the texture: eight RGBA colours.
pub open spec fn debug_palette() -> Seq<u8> {
    seq![
        255u8, 102, 159, 255, 255, 159, 102, 255, 236, 255, 102, 255, 121, 255, 102, 255,
        102, 255, 198, 255, 102, 198, 255, 255, 121, 102, 255, 255, 236, 102, 255, 255,
    ]
}

/// `s` rotated right by `k` places: the item at `j` moves to `j + k`,
/// wrapping round the end.
pub open spec fn rotated_right(s: Seq<u8>, k: int) -> Seq<u8> {
    Seq::new(s.len(), |j: int| s[(j - k) % (s.len() as int)])
}

/// The pixels of the UV debug texture, row after row: row `y` is the palette
/// rotated right by `y` pixels, so that each colour runs down a diagonal.
pub open spec fn debug_texture_bytes() -> Seq<u8> {
    Seq::new(
        (ROW_BYTES * TEXTURE_SIZE) as nat,
        |i: int| rotated_right(debug_palette(), 4 * (i / ROW_BYTES as int))[i % ROW_BYTES as int],
    )
}

/// Row `y` of the texture, `ROW_BYTES` bytes long.
pub open spec fn debug_texture_row(y: int) -> Seq<u8> {
    debug_texture_bytes().subrange(ROW_BYTES * y, ROW_BYTES * y + ROW_BYTES)
}

/// The first row of the texture is the palette itself, and each further row
/// is the row above it rotated right by one pixel (four bytes).
pub proof fn lemma_rows_rotate(y: int)
    requires
        0 <= y < TEXTURE_SIZE - 1,
    ensures
        debug_texture_row(0) == debug_palette(),
        debug_texture_row(y + 1) == rotated_right(debug_texture_row(y), 4),
{
    assert forall|k: int| 0 <= k < ROW_BYTES implies #[trigger] debug_texture_row(0)[k]
        == debug_palette()[k] by {
        lemma_row_entry(0, k);
        vstd::arithmetic::div_mod::lemma_small_mod(k as nat, 32);
    }
    assert(debug_texture_row(0) =~= debug_palette());
    lemma_rotated_right_twice(debug_palette(), 4 * y, 4);
    assert forall|k: int| 0 <= k < ROW_BYTES implies #[trigger] debug_texture_row(y + 1)[k]
        == rotated_right(debug_texture_row(y), 4)[k] by {
        let from = (k - 4) % 32;
        vstd::arithmetic::div_mod::lemma_mod_bound(k - 4, 32);
        lemma_row_entry(y + 1, k);
        lemma_row_entry(y, from);
        assert(rotated_right(rotated_right(debug_palette(), 4 * y), 4)[k]
            == rotated_right(debug_palette(), 4 * y + 4)[k]);
    }
    assert(debug_texture_row(y + 1) =~= rotated_right(debug_texture_row(y), 4));
}

/// Byte `k` of row `y` is byte `k` of the palette rotated right by `y` pixels.
proof fn lemma_row_entry(y: int, k: int)
    requires
        0 <= y < TEXTURE_SIZE,
        0 <= k < ROW_BYTES,
    ensures
        debug_texture_row(y)[k] == rotated_right(debug_palette(), 4 * y)[k],
{
    assert(ROW_BYTES * y == 32 * y);
    vstd::arithmetic::div_mod::lemma_fundamental_div_mod_converse(ROW_BYTES * y + k, 32, y, k);
    assert(ROW_BYTES * y + k < ROW_BYTES * TEXTURE_SIZE) by (nonlinear_arith)
        requires
            0 <= y < TEXTURE_SIZE,
            0 <= k < ROW_BYTES,
    ;
}

/// Rotating right by `a` and then by `b` is rotating right by `a + b`.
proof fn lemma_rotated_right_twice(s: Seq<u8>, a: int, b: int)
    requires
        s.len() > 0,
    ensures
        rotated_right(rotated_right(s, a), b) =~= rotated_right(s, a + b),
{
    let len = s.len() as int;
    assert forall|j: int| 0 <= j < len implies #[trigger] rotated_right(rotated_right(s, a), b)[j]
        == rotated_right(s, a + b)[j] by {
        vstd::arithmetic::div_mod::lemma_sub_mod_noop(j - b, a, len);
        vstd::arithmetic::div_mod::lemma_sub_mod_noop_right((j - b) % len, a, len);
        vstd::arithmetic::div_mod::lemma_mod_bound(j - b, len);
    }
}

fn debug_palette_bytes() -> (palette: Vec<u8>)
    ensures
        palette@ == debug_palette(),
{
    let palette: Vec<u8> = vec![
        255, 102, 159, 255, 255, 159, 102, 255, 236, 255, 102, 255, 121, 255, 102, 255, 102, 255,
        198, 255, 102, 198, 255, 255, 121, 102, 255, 255, 236, 102, 255, 255,
    ];
    assert(palette@ =~= debug_palette());
    palette
}

/// Rotates `v` right by `k` places, as a slice's `rotate_right` does.
fn rotate_right(v: &mut Vec<u8>, k: usize)
    requires
        0 < k <= old(v).len(),
    ensures
        final(v)@ == rotated_right(old(v)@, k as int),
{
    let len = v.len();
    let mut out: Vec<u8> = Vec::new();
    for j in 0..len
        invariant
            len == v.len(),
            0 < k <= len,
            out@ =~= rotated_right(v@, k as int).take(j as int),
    {
        let from = if j >= k { j - k } else { j + (len - k) };
        proof {
            vstd::arithmetic::div_mod::lemma_mod_add_multiples_vanish(j - k, len as int);
            vstd::arithmetic::div_mod::lemma_small_mod(from as nat, len as nat);
        }
        out.push(v[from]);
    }
    *v = out;
}

/// The bytes of the UV debug texture: `TEXTURE_SIZE` rows of `TEXTURE_SIZE`
/// RGBA pixels, each row the one above it rotated right by one pixel.
pub fn uv_debug_texture_data() -> (data: Vec<u8>)
    ensures
        data@ == debug_texture_bytes(),
{
    let mut palette = debug_palette_bytes();
    let mut texture_data: Vec<u8> = Vec::new();
    for y in 0..TEXTURE_SIZE
        invariant
            palette@ == rotated_right(debug_palette(), 4 * y),
            texture_data@ =~= debug_texture_bytes().take(ROW_BYTES * y),
    {
        for k in 0..ROW_BYTES
            invariant
                y < TEXTURE_SIZE,
                palette@ == rotated_right(debug_palette(), 4 * y),
                texture_data@ =~= debug_texture_bytes().take(ROW_BYTES * y + k),
        {
            assert((ROW_BYTES * y + k) / 32 == y && (ROW_BYTES * y + k) % 32 == k) by {
                vstd::arithmetic::div_mod::lemma_fundamental_div_mod_converse(
                    (ROW_BYTES * y + k) as int, 32, y as int, k as int);
            }
            texture_data.push(palette[k]);
        }
        assert(ROW_BYTES * (y + 1) == ROW_BYTES * y + ROW_BYTES) by (nonlinear_arith);
        proof {
            lemma_rotated_right_twice(debug_palette(), 4 * y, 4);
        }
        rotate_right(&mut palette, 4);
    }
    assert(debug_texture_bytes().take(ROW_BYTES * TEXTURE_SIZE) =~= debug_texture_bytes());
    texture_data
}

} // verus!
