//! The display: XOR sprite blitting with clipping and change detection.

use vstd::prelude::*;
use crate::bits::{bit, extract_bit, get_bit};
use crate::machine::{Fault, Machine, State, FLAG, HEIGHT, LINE_LENGTH, MEMORY_SIZE, WIDTH};
use crate::ops::halt;

verus! {

/// Whether the sprite stored at `index` has its pixel at (`row`, `col`)
/// set: bit `col` of the byte of that row, lowest bit first.
pub open spec fn sprite_bit(memory: Seq<u8>, index: int, row: int, col: int) -> bool {
    bit(memory[index + row], col as nat) == 1
}

/// Whether the cell in scanline `r`, column `c` lies under a set pixel of
/// the sprite of `n` rows whose top-left corner is at column `x`, scanline
/// `y`.
pub open spec fn lit(memory: Seq<u8>, index: int, x: int, y: int, n: int, r: int, c: int) -> bool {
    &&& y <= r < y + n
    &&& x <= c < x + LINE_LENGTH
    &&& sprite_bit(memory, index, r - y, c - x)
}

/// The framebuffer after the sprite is drawn: the cells under a set pixel
/// are flipped, all others keep their value. Pixels that fall outside the
/// framebuffer have no cell and so no effect.
pub open spec fn blit(
    screen: Seq<Seq<u8>>,
    memory: Seq<u8>,
    index: int,
    x: int,
    y: int,
    n: int,
) -> Seq<Seq<u8>> {
    Seq::new(
        HEIGHT as nat,
        |r: int|
            Seq::new(
                WIDTH as nat,
                |c: int|
                    if lit(memory, index, x, y, n, r, c) {
                        screen[r][c] ^ 0xFF
                    } else {
                        screen[r][c]
                    },
            ),
    )
}

/// Whether drawing the sprite changes any cell of the framebuffer.
pub open spec fn toggles_any(memory: Seq<u8>, index: int, x: int, y: int, n: int) -> bool {
    exists|r: int, c: int|
        0 <= r < HEIGHT && 0 <= c < WIDTH && #[trigger] lit(memory, index, x, y, n, r, c)
}

/// Whether the `N` bytes of the sprite at `memory[index..]` lie inside
/// memory.
pub open spec fn sprite_in_memory(s: State) -> bool {
    s.n() == 0 || s.index + s.n() <= MEMORY_SIZE
}

/// Draw: the sprite of `N` rows at `memory[index..]` is drawn with its
/// top-left corner at column `register[X]`, scanline `register[Y]`, and the
/// flag register tells whether any cell changed. A sprite that reaches past
/// the end of memory halts with nothing drawn.
pub open spec fn after_draw(s: State) -> State {
    let x = s.register[s.x()] as int;
    let y = s.register[s.y()] as int;
    if !sprite_in_memory(s) {
        s.halt(Fault::MemoryOutOfBounds)
    } else {
        State {
            register: s.register.update(
                FLAG as int,
                if toggles_any(s.memory, s.index as int, x, y, s.n()) {
                    1u8
                } else {
                    0u8
                },
            ),
            video_mem: blit(s.video_mem, s.memory, s.index as int, x, y, s.n()),
            ..s
        }
    }
}

/// Whether the sprite pixel number `offset`, counted row by row, is set and
/// has a cell in the framebuffer.
spec fn lit_offset(memory: Seq<u8>, index: int, x: int, y: int, offset: int) -> bool {
    &&& y + offset / 8 < HEIGHT
    &&& x + offset % 8 < WIDTH
    &&& sprite_bit(memory, index, offset / 8, offset % 8)
}

/// Draw (`DXYN`).
pub fn draw(machine: &mut Machine)
    ensures
        final(machine)@ == after_draw(old(machine)@),
{
    let x = machine.register[get_bit(machine.opcode, 2) as usize] as usize;
    let y = machine.register[get_bit(machine.opcode, 1) as usize] as usize;
    let lines = get_bit(machine.opcode, 0) as usize;
    let index = machine.index as usize;
    if lines > 0 && index + lines > MEMORY_SIZE {
        halt(machine, Fault::MemoryOutOfBounds);
        return ;
    }
    machine.register[0xF] = 0x0;
    let ghost memory = machine.memory@;
    let mut offset: usize = 0;
    while offset < lines * LINE_LENGTH
        invariant
            offset <= lines * LINE_LENGTH,
            lines < 16,
            x < 256,
            y < 256,
            lines == 0 || index + lines <= MEMORY_SIZE,
            memory == old(machine).memory@,
            machine@ == (State {
                register: machine@.register,
                video_mem: machine@.video_mem,
                ..old(machine)@
            }),
            machine.register@ == old(machine).register@.update(
                FLAG as int,
                machine.register[FLAG as int],
            ),
            machine.register[FLAG as int] == if exists|o: int|
                0 <= o < offset && #[trigger] lit_offset(
                    memory,
                    index as int,
                    x as int,
                    y as int,
                    o,
                ) {
                1u8
            } else {
                0u8
            },
            forall|r: int, c: int|
                0 <= r < HEIGHT && 0 <= c < WIDTH ==> #[trigger] machine.video_mem[r][c] == if lit(
                    memory,
                    index as int,
                    x as int,
                    y as int,
                    lines as int,
                    r,
                    c,
                ) && (r - y) * 8 + (c - x) < offset {
                    old(machine).video_mem[r][c] ^ 0xFF
                } else {
                    old(machine).video_mem[r][c]
                },
        decreases lines * LINE_LENGTH - offset,
    {
        let ghost flag_before = machine.register[FLAG as int];
        let row = offset / LINE_LENGTH;
        let col = offset % LINE_LENGTH;
        let r = y + row;
        let c = x + col;
        if r < HEIGHT && c < WIDTH {
            let cell = machine.memory[index + row];
            if extract_bit(cell, col) != 0 {
                machine.register[0xF] = 1;
                machine.video_mem[r][c] ^= 0xFF;
            }
        }
        assert(machine.register[FLAG as int] == 1 <==> flag_before == 1 || lit_offset(
            memory,
            index as int,
            x as int,
            y as int,
            offset as int,
        ));
        offset += 1;
    }
    proof {
        let s = old(machine)@;
        assert(machine@.video_mem =~~= blit(
            s.video_mem,
            s.memory,
            index as int,
            x as int,
            y as int,
            lines as int,
        ));
        if toggles_any(s.memory, index as int, x as int, y as int, lines as int) {
            let (r, c) = choose|r: int, c: int|
                0 <= r < HEIGHT && 0 <= c < WIDTH && #[trigger] lit(
                    s.memory,
                    index as int,
                    x as int,
                    y as int,
                    lines as int,
                    r,
                    c,
                );
            assert(lit_offset(s.memory, index as int, x as int, y as int, (r - y) * 8 + (c - x)));
        }
        if exists|o: int|
            0 <= o < offset && #[trigger] lit_offset(
                memory,
                index as int,
                x as int,
                y as int,
                o,
            ) {
            let o = choose|o: int|
                0 <= o < offset && #[trigger] lit_offset(
                    memory,
                    index as int,
                    x as int,
                    y as int,
                    o,
                );
            assert(lit(
                s.memory,
                index as int,
                x as int,
                y as int,
                lines as int,
                y + o / 8,
                x + o % 8,
            ));
        }
    }
}

/// The framebuffer as texture data: three equal bytes for each cell, the
/// cells of a scanline from left to right, the scanlines from the bottom
/// one to the top one.
pub open spec fn texture_model(screen: Seq<Seq<u8>>) -> Seq<u8> {
    Seq::new(
        (3 * WIDTH * HEIGHT) as nat,
        |k: int| screen[HEIGHT - 1 - (k / 3) / (WIDTH as int)][(k / 3) % (WIDTH as int)],
    )
}

/// The framebuffer as an image of four channels: for each cell, top
/// scanline first and from left to right, the three colour bytes, white
/// for a cell that is on and black for one that is off, and an opaque
/// alpha byte.
pub open spec fn rgba_model(screen: Seq<Seq<u8>>) -> Seq<u8> {
    Seq::new(
        (4 * WIDTH * HEIGHT) as nat,
        |k: int|
            if k % 4 == 3 || screen[(k / 4) / (WIDTH as int)][(k / 4) % (WIDTH as int)] != 0 {
                0xFFu8
            } else {
                0u8
            },
    )
}

impl Machine {
    /// The framebuffer as the bytes of an image of `WIDTH` by `HEIGHT`
    /// pixels with four channels each, top scanline first.
    pub fn rgba_data(&self) -> (data: Vec<u8>)
        ensures
            data@ == rgba_model(self@.video_mem),
    {
        let mut data: Vec<u8> = Vec::with_capacity(WIDTH * HEIGHT * 4);
        let mut i: usize = 0;
        while i < HEIGHT
            invariant
                i <= HEIGHT,
                data@.len() == 256 * i,
                forall|k: int| 0 <= k < data@.len() ==> data@[k] == rgba_model(self@.video_mem)[k],
            decreases HEIGHT - i,
        {
            let mut j: usize = 0;
            while j < WIDTH
                invariant
                    i < HEIGHT,
                    j <= WIDTH,
                    data@.len() == 4 * (64 * i + j),
                    forall|k: int|
                        0 <= k < data@.len() ==> data@[k] == rgba_model(self@.video_mem)[k],
                decreases WIDTH - j,
            {
                let shade: u8 = if self.video_mem[i][j] == 0 {
                    0
                } else {
                    0xFF
                };
                data.push(shade);
                data.push(shade);
                data.push(shade);
                data.push(0xFF);
                j += 1;
            }
            i += 1;
        }
        data
    }

    /// The framebuffer as the bytes of a texture of `WIDTH` by `HEIGHT`
    /// texels with three channels each, bottom scanline first.
    pub fn texture_data(&self) -> (data: Vec<u8>)
        ensures
            data@ == texture_model(self@.video_mem),
    {
        let mut data: Vec<u8> = Vec::with_capacity(WIDTH * HEIGHT * 3);
        let mut i: usize = 0;
        while i < HEIGHT
            invariant
                i <= HEIGHT,
                data@.len() == 192 * i,
                forall|k: int|
                    0 <= k < data@.len() ==> data@[k] == texture_model(self@.video_mem)[k],
            decreases HEIGHT - i,
        {
            let mut j: usize = 0;
            while j < WIDTH
                invariant
                    i < HEIGHT,
                    j <= WIDTH,
                    data@.len() == 3 * (64 * i + j),
                    forall|k: int|
                        0 <= k < data@.len() ==> data@[k] == texture_model(self@.video_mem)[k],
                decreases WIDTH - j,
            {
                let pixel = self.video_mem[HEIGHT - 1 - i][j];
                data.push(pixel);
                data.push(pixel);
                data.push(pixel);
                j += 1;
            }
            i += 1;
        }
        data
    }
}

/// Drawing a sprite twice at the same place gives back the framebuffer as
/// it was: every flipped cell is flipped again.
pub proof fn law_blit_twice_restores(
    screen: Seq<Seq<u8>>,
    memory: Seq<u8>,
    index: int,
    x: int,
    y: int,
    n: int,
)
    requires
        screen.len() == HEIGHT,
        forall|r: int| 0 <= r < HEIGHT ==> (#[trigger] screen[r]).len() == WIDTH,
    ensures
        blit(blit(screen, memory, index, x, y, n), memory, index, x, y, n) == screen,
{
    let once = blit(screen, memory, index, x, y, n);
    let twice = blit(once, memory, index, x, y, n);
    assert forall|r: int, c: int| 0 <= r < HEIGHT && 0 <= c < WIDTH implies #[trigger] twice[r][c]
        == screen[r][c] by {
        let v = screen[r][c];
        assert((v ^ 0xFF) ^ 0xFF == v) by (bit_vector);
    }
    assert(twice =~~= screen);
}

/// Executing the same draw instruction twice, with the coordinate
/// registers holding the same values both times, restores the framebuffer,
/// and the flag register after the second draw is what it was after the
/// first: the second draw flips exactly the cells that the first flipped.
pub proof fn law_draw_twice_restores(s: State)
    requires
        s.wf(),
        after_draw(s).register[s.x()] == s.register[s.x()],
        after_draw(s).register[s.y()] == s.register[s.y()],
    ensures
        after_draw(after_draw(s)).video_mem == s.video_mem,
        after_draw(after_draw(s)).register == after_draw(s).register,
        after_draw(after_draw(s)).memory == s.memory,
        after_draw(after_draw(s)).index == s.index,
        sprite_in_memory(s) ==> after_draw(after_draw(s)).register[FLAG as int]
            == if toggles_any(
            s.memory,
            s.index as int,
            s.register[s.x()] as int,
            s.register[s.y()] as int,
            s.n(),
        ) {
            1u8
        } else {
            0u8
        },
{
    let x = s.register[s.x()] as int;
    let y = s.register[s.y()] as int;
    if sprite_in_memory(s) {
        law_blit_twice_restores(s.video_mem, s.memory, s.index as int, x, y, s.n());
    }
}

/// A draw changes the cell in scanline `r`, column `c` only through the
/// sprite pixel that lies on it: a sprite that sticks out of the
/// framebuffer is cut off there, and none of its pixels shows up at
/// another place.
pub proof fn law_draw_clips(s: State, r: int, c: int)
    requires
        s.wf(),
        sprite_in_memory(s),
        0 <= r < HEIGHT,
        0 <= c < WIDTH,
    ensures
        after_draw(s).video_mem.len() == HEIGHT,
        after_draw(s).video_mem[r].len() == WIDTH,
        ({
            let row = r - s.register[s.y()];
            let col = c - s.register[s.x()];
            after_draw(s).video_mem[r][c] == if 0 <= row < s.n() && 0 <= col < LINE_LENGTH
                && sprite_bit(s.memory, s.index as int, row, col) {
                s.video_mem[r][c] ^ 0xFF
            } else {
                s.video_mem[r][c]
            }
        }),
{
}

} // verus!
