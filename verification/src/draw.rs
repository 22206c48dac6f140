use vstd::prelude::*;
use vstd::arithmetic::div_mod::lemma_fundamental_div_mod;
use vstd::arithmetic::div_mod::lemma_fundamental_div_mod_converse;
use vstd::arithmetic::div_mod::lemma_mod_multiples_vanish;
use vstd::arithmetic::div_mod::lemma_small_mod;
use crate::state::Chip8;
use crate::state::DISPLAY_CELLS;
use crate::state::MEM_SIZE;
use crate::state::NUM_REGS;
use crate::state::SCREEN_H;
use crate::state::SCREEN_W;

verus! {

/// The all-off framebuffer.
pub open spec fn blank_display() -> Seq<bool> {
    Seq::new(DISPLAY_CELLS as nat, |k: int| false)
}

/// The flattened framebuffer cell of screen column `x`, row `y`.
pub open spec fn cell_at(x: int, y: int) -> int {
    x * (SCREEN_H as int) + y
}

/// Bit `c` of a sprite row byte, most-significant bit first: the pixel the
/// byte contributes to column offset `c`.
pub open spec fn sprite_bit(b: u8, c: int) -> bool {
    (b >> ((7 - c) as u8)) & 1 == 1
}

/// The sprite column offset that lands on screen column `x` when the sprite
/// starts at column `x0`, wrapping at the screen width.
pub open spec fn col_offset(x0: int, x: int) -> int {
    (x - x0) % (SCREEN_W as int)
}

/// The sprite row offset that lands on screen row `y` when the sprite
/// starts at row `y0`, wrapping at the screen height.
pub open spec fn row_offset(y0: int, y: int) -> int {
    (y - y0) % (SCREEN_H as int)
}

/// The framebuffer after an entire sprite is XOR-composited at (x0, y0):
/// row `r`, column `c` of the sprite lands on screen column (x0 + c) mod 64
/// and row (y0 + r) mod 32, each axis wrapping independently.
pub open spec fn spec_draw(fb: Seq<bool>, sprite: Seq<u8>, x0: int, y0: int) -> Seq<bool> {
    Seq::new(
        fb.len(),
        |k: int|
            {
                let c = col_offset(x0, k / (SCREEN_H as int));
                let r = row_offset(y0, k % (SCREEN_H as int));
                if c < 8 && r < sprite.len() {
                    fb[k] != sprite_bit(sprite[r], c)
                } else {
                    fb[k]
                }
            },
    )
}

/// Whether drawing the sprite at (x0, y0) turns some lit pixel off: a
/// sprite bit of 1 meets a prior screen bit of 1.
pub open spec fn spec_hit(fb: Seq<bool>, sprite: Seq<u8>, x0: int, y0: int) -> bool {
    exists|r: int, c: int|
        #![trigger sprite_bit(sprite[r], c)]
        0 <= r < sprite.len() && 0 <= c < 8 && sprite_bit(sprite[r], c) && fb[cell_at(
            (x0 + c) % (SCREEN_W as int),
            (y0 + r) % (SCREEN_H as int),
        )]
}

/// The framebuffer after only the first `steps` cells of the row-major
/// sprite walk (8 columns per row) have been XORed in.
pub open spec fn draw_upto(fb: Seq<bool>, sprite: Seq<u8>, x0: int, y0: int, steps: int) -> Seq<
    bool,
> {
    Seq::new(
        fb.len(),
        |k: int|
            {
                let c = col_offset(x0, k / (SCREEN_H as int));
                let r = row_offset(y0, k % (SCREEN_H as int));
                if c < 8 && r < sprite.len() && r * 8 + c < steps {
                    fb[k] != sprite_bit(sprite[r], c)
                } else {
                    fb[k]
                }
            },
    )
}

/// Whether the first `steps` cells of the sprite walk turn a lit pixel off.
pub open spec fn hit_upto(fb: Seq<bool>, sprite: Seq<u8>, x0: int, y0: int, steps: int) -> bool {
    exists|r: int, c: int|
        #![trigger sprite_bit(sprite[r], c)]
        0 <= r < sprite.len() && 0 <= c < 8 && r * 8 + c < steps && sprite_bit(sprite[r], c)
            && fb[cell_at((x0 + c) % (SCREEN_W as int), (y0 + r) % (SCREEN_H as int))]
}

/// Adding an offset below the modulus and wrapping lands back on the same
/// offset.
proof fn lemma_offset_roundtrip(o: int, n: int, m: int)
    requires
        0 <= o,
        0 <= n < m,
    ensures
        ((o + n) % m - o) % m == n,
{
    lemma_fundamental_div_mod(o + n, m);
    let q = (o + n) / m;
    assert((o + n) % m - o == m * (-q) + n) by (nonlinear_arith)
        requires
            o + n == m * q + (o + n) % m,
    ;
    lemma_mod_multiples_vanish(-q, n, m);
    lemma_small_mod(n as nat, m as nat);
}

/// Two in-range coordinates with the same wrapped offset from one origin
/// are the same coordinate.
proof fn lemma_offset_injective(o: int, m: int, a: int, b: int)
    requires
        0 < m,
        0 <= a < m,
        0 <= b < m,
        (a - o) % m == (b - o) % m,
    ensures
        a == b,
{
    lemma_fundamental_div_mod(a - o, m);
    lemma_fundamental_div_mod(b - o, m);
    let qa = (a - o) / m;
    let qb = (b - o) / m;
    assert(a - b == m * (qa - qb)) by (nonlinear_arith)
        requires
            a - o == m * qa + (a - o) % m,
            b - o == m * qb + (b - o) % m,
            (a - o) % m == (b - o) % m,
    ;
    assert(qa == qb) by (nonlinear_arith)
        requires
            a - b == m * (qa - qb),
            -m < a - b < m,
            0 < m,
    ;
}

/// A cell index decomposes uniquely into its screen column and row.
proof fn lemma_cell_coords(x: int, y: int)
    requires
        0 <= x < SCREEN_W,
        0 <= y < SCREEN_H,
    ensures
        cell_at(x, y) / (SCREEN_H as int) == x,
        cell_at(x, y) % (SCREEN_H as int) == y,
        0 <= cell_at(x, y) < DISPLAY_CELLS,
{
    lemma_fundamental_div_mod_converse(x * (SCREEN_H as int) + y, SCREEN_H as int, x, y);
}

/// The whole row-major walk and the one-shot composition agree, and so do
/// their collision verdicts.
proof fn lemma_draw_upto_full(fb: Seq<bool>, sprite: Seq<u8>, x0: int, y0: int)
    ensures
        draw_upto(fb, sprite, x0, y0, sprite.len() * 8int) == spec_draw(fb, sprite, x0, y0),
        hit_upto(fb, sprite, x0, y0, sprite.len() * 8int) == spec_hit(fb, sprite, x0, y0),
{
    assert forall|k: int| 0 <= k < fb.len() implies draw_upto(fb, sprite, x0, y0, sprite.len() * 8int)[k]
        == spec_draw(fb, sprite, x0, y0)[k] by {
        let c = col_offset(x0, k / (SCREEN_H as int));
        let r = row_offset(y0, k % (SCREEN_H as int));
        if c < 8 && r < sprite.len() {
            assert(r * 8 + c < sprite.len() * 8int);
        }
    }
    assert(draw_upto(fb, sprite, x0, y0, sprite.len() * 8int) =~= spec_draw(fb, sprite, x0, y0));
    if spec_hit(fb, sprite, x0, y0) {
        let (r, c) = choose|r: int, c: int|
            #![trigger sprite_bit(sprite[r], c)]
            0 <= r < sprite.len() && 0 <= c < 8 && sprite_bit(sprite[r], c) && fb[cell_at(
                (x0 + c) % (SCREEN_W as int),
                (y0 + r) % (SCREEN_H as int),
            )];
        assert(r * 8 + c < sprite.len() * 8int);
        assert(hit_upto(fb, sprite, x0, y0, sprite.len() * 8int));
    }
}

impl Chip8 {
    /// `00E0`: clear the framebuffer; every pixel goes off.
    pub fn cls(&mut self)
        requires
            old(self).wf(),
        ensures
            final(self).wf(),
            final(self).same_but_display(*old(self)),
            final(self).display@ == blank_display(),
    {
        let mut i: usize = 0;
        while i < DISPLAY_CELLS
            invariant
                self.wf(),
                self.same_but_display(*old(self)),
                i <= DISPLAY_CELLS,
                forall|j: int| 0 <= j < i ==> self.display@[j] == false,
            decreases DISPLAY_CELLS - i,
        {
            self.display[i] = false;
            i = i + 1;
        }
        proof {
            assert(self.display@ =~= blank_display());
        }
    }

    /// `Dxyn`: XOR-composite the `height`-row sprite at memory[I..I+height]
    /// onto the screen at (Vx, Vy), wrapping both axes; VF reports whether
    /// any lit pixel went off. VF is written on every draw, never left
    /// stale.
    #[verifier::loop_isolation(false)]
    pub fn draw(&mut self, x: u8, y: u8, height: u8)
        requires
            old(self).wf(),
            x < NUM_REGS,
            y < NUM_REGS,
            height < 16,
            old(self).index_register + height <= MEM_SIZE,
        ensures
            final(self).wf(),
            final(self).same_but_display_regs(*old(self)),
            final(self).display@ == spec_draw(
                old(self).display@,
                old(self).memory@.subrange(
                    old(self).index_register as int,
                    old(self).index_register + height,
                ),
                old(self).registers@[x as int] as int,
                old(self).registers@[y as int] as int,
            ),
            final(self).registers@ == old(self).registers@.update(
                15,
                (if spec_hit(
                    old(self).display@,
                    old(self).memory@.subrange(
                        old(self).index_register as int,
                        old(self).index_register + height,
                    ),
                    old(self).registers@[x as int] as int,
                    old(self).registers@[y as int] as int,
                ) {
                    1u8
                } else {
                    0u8
                }),
            ),
    {
        let x_pos = self.registers[x as usize] as usize;
        let y_pos = self.registers[y as usize] as usize;
        let base = self.index_register as usize;
        let ghost fb0 = self.display@;
        let ghost sprite = self.memory@.subrange(base as int, base + height);
        self.registers[0xF] = 0;
        proof {
            assert(draw_upto(fb0, sprite, x_pos as int, y_pos as int, 0) =~= fb0);
        }
        let mut row: usize = 0;
        while row < height as usize
            invariant
                self.wf(),
                self.same_but_display_regs(*old(self)),
                row <= height,
                self.display@ == draw_upto(fb0, sprite, x_pos as int, y_pos as int, row * 8),
                self.registers@ == old(self).registers@.update(
                    15,
                    (if hit_upto(fb0, sprite, x_pos as int, y_pos as int, row * 8) {
                        1u8
                    } else {
                        0u8
                    }),
                ),
            decreases height - row,
        {
            let row_bits = self.memory[base + row];
            let mut col: usize = 0;
            while col < 8
                invariant
                    self.wf(),
                    self.same_but_display_regs(*old(self)),
                    row < height,
                    col <= 8,
                    row_bits == sprite[row as int],
                    self.display@ == draw_upto(
                        fb0,
                        sprite,
                        x_pos as int,
                        y_pos as int,
                        row * 8 + col,
                    ),
                    self.registers@ == old(self).registers@.update(
                        15,
                        (if hit_upto(fb0, sprite, x_pos as int, y_pos as int, row * 8 + col) {
                            1u8
                        } else {
                            0u8
                        }),
                    ),
                decreases 8 - col,
            {
                let ghost steps = row * 8 + col;
                let bit = (row_bits >> ((7 - col) as u8)) & 1;
                let bit_on = bit == 1;
                let sx = (x_pos + col) % SCREEN_W;
                let sy = (y_pos + row) % SCREEN_H;
                let idx = sx * SCREEN_H + sy;
                proof {
                    lemma_cell_coords(sx as int, sy as int);
                    lemma_offset_roundtrip(x_pos as int, col as int, SCREEN_W as int);
                    lemma_offset_roundtrip(y_pos as int, row as int, SCREEN_H as int);
                    assert(col_offset(x_pos as int, idx as int / (SCREEN_H as int)) == col);
                    assert(row_offset(y_pos as int, idx as int % (SCREEN_H as int)) == row);
                    assert(bit_on == sprite_bit(sprite[row as int], col as int));
                }
                let prior = self.display[idx];
                proof {
                    assert(prior == fb0[idx as int]);
                }
                if bit_on && prior {
                    self.registers[0xF] = 1;
                    proof {
                        assert(cell_at(sx as int, sy as int) == idx);
                        assert(hit_upto(fb0, sprite, x_pos as int, y_pos as int, steps + 1));
                        assert(self.registers@ =~= old(self).registers@.update(15, 1u8));
                    }
                } else {
                    proof {
                        if hit_upto(fb0, sprite, x_pos as int, y_pos as int, steps + 1) {
                            let (r, c) = choose|r: int, c: int|
                                #![trigger sprite_bit(sprite[r], c)]
                                0 <= r < sprite.len() && 0 <= c < 8 && r * 8 + c < steps + 1
                                    && sprite_bit(sprite[r], c) && fb0[cell_at(
                                    (x_pos + c) % (SCREEN_W as int),
                                    (y_pos + r) % (SCREEN_H as int),
                                )];
                            if r * 8 + c == steps {
                                lemma_fundamental_div_mod_converse(steps, 8, row as int, col as int);
                                lemma_fundamental_div_mod_converse(steps, 8, r, c);
                                assert(r == row && c == col);
                                assert(false);
                            }
                            assert(hit_upto(fb0, sprite, x_pos as int, y_pos as int, steps));
                        }
                    }
                }
                let new_bit = prior != bit_on;
                self.display[idx] = new_bit;
                proof {
                    let d_new = draw_upto(fb0, sprite, x_pos as int, y_pos as int, steps + 1);
                    assert forall|k: int| 0 <= k < DISPLAY_CELLS implies d_new[k]
                        == self.display@[k] by {
                        lemma_fundamental_div_mod(k, SCREEN_H as int);
                        let xk = k / (SCREEN_H as int);
                        let yk = k % (SCREEN_H as int);
                        let ck = col_offset(x_pos as int, xk);
                        let rk = row_offset(y_pos as int, yk);
                        if k == idx {
                            assert(d_new[k] == (fb0[k] != sprite_bit(sprite[row as int], col as int)));
                        } else {
                            if ck < 8 && rk < sprite.len() && rk * 8 + ck == steps {
                                lemma_fundamental_div_mod_converse(steps, 8, row as int, col as int);
                                lemma_fundamental_div_mod_converse(steps, 8, rk, ck);
                                assert(rk == row && ck == col);
                                lemma_offset_injective(x_pos as int, SCREEN_W as int, xk, sx as int);
                                lemma_offset_injective(y_pos as int, SCREEN_H as int, yk, sy as int);
                                assert(k == idx);
                                assert(false);
                            }
                        }
                    }
                    assert(self.display@ =~= d_new);
                }
                col = col + 1;
            }
            row = row + 1;
        }
        proof {
            lemma_draw_upto_full(fb0, sprite, x_pos as int, y_pos as int);
        }
    }
}

/// Drawing an all-zero sprite onto an all-zero framebuffer changes nothing
/// and reports no collision.
pub proof fn lemma_draw_zero_sprite(fb: Seq<bool>, sprite: Seq<u8>, x0: int, y0: int)
    requires
        fb.len() == DISPLAY_CELLS,
        forall|k: int| 0 <= k < fb.len() ==> fb[k] == false,
        forall|r: int| 0 <= r < sprite.len() ==> sprite[r] == 0u8,
    ensures
        spec_draw(fb, sprite, x0, y0) == fb,
        !spec_hit(fb, sprite, x0, y0),
{
    assert forall|c: int| 0 <= c < 8 implies !sprite_bit(0u8, c) by {
        let s = (7 - c) as u8;
        assert((0u8 >> s) & 1 == 0) by (bit_vector);
    }
    assert forall|k: int| 0 <= k < fb.len() implies spec_draw(fb, sprite, x0, y0)[k] == fb[k] by {
        let c = col_offset(x0, k / (SCREEN_H as int));
        let r = row_offset(y0, k % (SCREEN_H as int));
        if c < 8 && r < sprite.len() {
            assert(sprite[r] == 0u8);
            assert(!sprite_bit(sprite[r], c));
        }
    }
    assert(spec_draw(fb, sprite, x0, y0) =~= fb);
}

/// XOR-compositing is its own inverse: drawing the same sprite twice at the
/// same position over an all-zero framebuffer restores it to all-zero, and
/// the second draw reports a collision exactly when the sprite has a set
/// bit in its drawn rows.
pub proof fn lemma_draw_twice(fb: Seq<bool>, sprite: Seq<u8>, x0: int, y0: int)
    requires
        fb.len() == DISPLAY_CELLS,
        forall|k: int| 0 <= k < fb.len() ==> fb[k] == false,
        0 <= x0,
        0 <= y0,
        sprite.len() < 16,
    ensures
        spec_draw(spec_draw(fb, sprite, x0, y0), sprite, x0, y0) == fb,
        spec_hit(spec_draw(fb, sprite, x0, y0), sprite, x0, y0) <==> (exists|r: int, c: int|
            #![trigger sprite_bit(sprite[r], c)]
            0 <= r < sprite.len() && 0 <= c < 8 && sprite_bit(sprite[r], c)),
{
    let fb1 = spec_draw(fb, sprite, x0, y0);
    assert forall|k: int| 0 <= k < fb.len() implies spec_draw(fb1, sprite, x0, y0)[k] == fb[k] by {
        let c = col_offset(x0, k / (SCREEN_H as int));
        let r = row_offset(y0, k % (SCREEN_H as int));
        if c < 8 && r < sprite.len() {
            assert(fb1[k] == (fb[k] != sprite_bit(sprite[r], c)));
        }
    }
    assert(spec_draw(fb1, sprite, x0, y0) =~= fb);
    if exists|r: int, c: int|
        #![trigger sprite_bit(sprite[r], c)]
        0 <= r < sprite.len() && 0 <= c < 8 && sprite_bit(sprite[r], c) {
        let (r, c) = choose|r: int, c: int|
            #![trigger sprite_bit(sprite[r], c)]
            0 <= r < sprite.len() && 0 <= c < 8 && sprite_bit(sprite[r], c);
        let sx = (x0 + c) % (SCREEN_W as int);
        let sy = (y0 + r) % (SCREEN_H as int);
        lemma_cell_coords(sx, sy);
        lemma_offset_roundtrip(x0, c, SCREEN_W as int);
        lemma_offset_roundtrip(y0, r, SCREEN_H as int);
        let k = cell_at(sx, sy);
        assert(col_offset(x0, k / (SCREEN_H as int)) == c);
        assert(row_offset(y0, k % (SCREEN_H as int)) == r);
        assert(fb1[k] == (fb[k] != sprite_bit(sprite[r], c)));
        assert(fb1[k]);
        assert(spec_hit(fb1, sprite, x0, y0));
    }
}

} // verus!
