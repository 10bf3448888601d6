use vstd::prelude::*;
use vstd::arithmetic::div_mod::lemma_fundamental_div_mod;
use vstd::arithmetic::div_mod::lemma_div_denominator;

verus! {

/// Multiplier of the hash's mixing step.
pub const PCG_MULTIPLIER: u32 = 277_803_737;

/// The integer mixing step of the terrain hash, on 32-bit words:
/// a data-dependent shift and xor, a multiplication modulo 2^32,
/// and a final xor with the word's top ten bits.
pub open spec fn spec_pcg_word(state: u32) -> u32 {
    let shifted = (state >> (((state >> 28u32) + 4) as u32)) ^ state;
    let word = ((shifted as nat * PCG_MULTIPLIER as nat) % 0x1_0000_0000) as u32;
    (word >> 22u32) ^ word
}

/// Distance between neighbouring 32-bit floats at `x`: 1 below 2^24,
/// and doubled with every further binade.
pub open spec fn f32_spacing(x: nat) -> nat
    decreases x,
{
    if x < 0x100_0000 {
        1
    } else {
        2 * f32_spacing(x / 2)
    }
}

/// The multiple of `u` nearest to `x`, an even multiple on a tie.
pub open spec fn round_half_even(x: nat, u: nat) -> nat
    recommends
        u > 0,
{
    let q = x / u;
    let r = x % u;
    if 2 * r > u || (2 * r == u && q % 2 == 1) {
        ((q + 1) * u) as nat
    } else {
        (q * u) as nat
    }
}

/// The value of `x as f32` for a 32-bit `x`: `x` rounded to nearest,
/// ties to even, on the grid of 32-bit floats.
pub open spec fn spec_f32_of(x: nat) -> nat {
    round_half_even(x, f32_spacing(x))
}

/// The terrain hash as a multiple of 2^-32: the float
/// `(word as f32) / (u32::MAX as f32)` times 2^32. Since `u32::MAX as f32`
/// is 2^32, that float is exactly this value divided by 2^32.
pub open spec fn spec_pcg_hash(state: u32) -> nat {
    spec_f32_of(spec_pcg_word(state) as nat)
}

/// The integer mixing step of the terrain hash.
pub fn pcg_word(state: u32) -> (w: u32)
    ensures
        w == spec_pcg_word(state),
{
    assert((state >> 28u32) <= 15) by (bit_vector);
    let shift: u32 = (state >> 28u32) + 4;
    let word: u32 = ((state >> shift) ^ state).wrapping_mul(PCG_MULTIPLIER);
    (word >> 22u32) ^ word
}

proof fn lemma_spacing_step(x: nat, u: nat)
    requires
        u >= 1,
        x / u >= 0x100_0000,
    ensures
        u * f32_spacing(x / u) == (2 * u) * f32_spacing(x / (2 * u)),
{
    lemma_div_denominator(x as int, u as int, 2);
    assert((x / u) / 2 == x / (2 * u)) by (nonlinear_arith)
        requires
            (x / u) / 2 == x / (u * 2),
    ;
    assert(f32_spacing(x / u) == 2 * f32_spacing((x / u) / 2));
    assert(u * (2 * f32_spacing(x / (2 * u))) == (2 * u) * f32_spacing(x / (2 * u)))
        by (nonlinear_arith);
}

/// `x as f32` for a 32-bit `x`, as the exact integer that the float
/// holds. At most 2^32.
pub fn f32_value_of(x: u32) -> (v: u64)
    ensures
        v == spec_f32_of(x as nat),
        v <= 0x1_0000_0000,
{
    let ghost xn: nat = x as nat;
    let xw: u64 = x as u64;
    let mut u: u64 = 1;
    assert(xn / 1 == xn) by (nonlinear_arith);
    while xw >= 0x100_0000 * u
        invariant
            xw == xn,
            xn < 0x1_0000_0000,
            u == 1 || u == 2 || u == 4 || u == 8 || u == 16 || u == 32 || u == 64 || u == 128
                || u == 256,
            f32_spacing(xn) == u * f32_spacing(xn / (u as nat)),
        decreases 256 - u,
    {
        assert(xn / (u as nat) >= 0x100_0000) by (nonlinear_arith)
            requires
                xn >= 0x100_0000 * u,
                u >= 1,
        ;
        proof {
            lemma_spacing_step(xn, u as nat);
        }
        u = 2 * u;
    }
    assert(xn / (u as nat) < 0x100_0000) by (nonlinear_arith)
        requires
            xn < 0x100_0000 * u,
            u >= 1,
    ;
    assert(f32_spacing(xn / (u as nat)) == 1);
    assert(f32_spacing(xn) == u * 1);
    assert(f32_spacing(xn) == u);
    let q: u64 = xw / u;
    let r: u64 = xw % u;
    proof {
        lemma_fundamental_div_mod(xn as int, u as int);
    }
    assert(q < 0x100_0000);
    assert((q + 1) * u <= 0x1_0000_0000) by (nonlinear_arith)
        requires
            q < 0x100_0000,
            u <= 256,
    ;
    if 2 * r > u || (2 * r == u && q % 2 == 1) {
        (q + 1) * u
    } else {
        assert(q * u <= (q + 1) * u) by (nonlinear_arith);
        q * u
    }
}

/// The float grid: spacing 1 below 2^24; above, the spacing `u` is the
/// power of two with 2^23 * u <= x < 2^24 * u, so every value keeps 24
/// significant bits.
pub proof fn lemma_f32_spacing_binade(x: nat)
    ensures
        x < 0x100_0000 ==> f32_spacing(x) == 1,
        x >= 0x100_0000 ==> 0x80_0000 * f32_spacing(x) <= x < 0x100_0000 * f32_spacing(x),
        f32_spacing(x) >= 1,
        f32_spacing(x) == 1 || f32_spacing(x) % 2 == 0,
    decreases x,
{
    if x >= 0x100_0000 {
        let y = x / 2;
        lemma_f32_spacing_binade(y);
        let v = f32_spacing(y);
        assert(f32_spacing(x) == 2 * v);
        if y < 0x100_0000 {
            assert(v == 1);
        }
        assert(0x80_0000 * (2 * v) <= x < 0x100_0000 * (2 * v)) by (nonlinear_arith)
            requires
                y == x / 2,
                y >= 0x80_0000,
                y >= 0x100_0000 ==> 0x80_0000 * v <= y < 0x100_0000 * v,
                y < 0x100_0000 ==> v == 1,
                v >= 1,
        ;
    }
}

/// The rounding is exact below 2^24 and otherwise lands on a multiple of
/// the spacing no farther than half a spacing from `x`, and on an even
/// multiple when `x` lies exactly halfway: the value is the float
/// nearest to `x`, ties to even.
pub proof fn lemma_f32_of_is_nearest(x: nat)
    ensures
        x < 0x100_0000 ==> spec_f32_of(x) == x,
        f32_spacing(x) >= 1,
        spec_f32_of(x) % f32_spacing(x) == 0,
        2 * (spec_f32_of(x) - x) <= f32_spacing(x),
        2 * (x - spec_f32_of(x)) <= f32_spacing(x),
        (2 * (spec_f32_of(x) - x) == f32_spacing(x) || 2 * (x - spec_f32_of(x)) == f32_spacing(x))
            ==> (spec_f32_of(x) / f32_spacing(x)) % 2 == 0,
{
    let u = f32_spacing(x);
    lemma_f32_spacing_binade(x);
    lemma_fundamental_div_mod(x as int, u as int);
    let q = x / u;
    let r = x % u;
    vstd::arithmetic::div_mod::lemma_mod_multiples_basic(q as int, u as int);
    vstd::arithmetic::div_mod::lemma_mod_multiples_basic((q + 1) as int, u as int);
    vstd::arithmetic::div_mod::lemma_div_multiples_vanish(q as int, u as int);
    vstd::arithmetic::div_mod::lemma_div_multiples_vanish((q + 1) as int, u as int);
    if x < 0x100_0000 {
        assert(x / 1 == x && x % 1 == 0) by (nonlinear_arith);
    }
    assert((q + 1) * u == q * u + u) by (nonlinear_arith);
    assert(x == q * u + r) by (nonlinear_arith)
        requires
            x == u * q + r,
    ;
    assert(u * q == q * u && u * (q + 1) == (q + 1) * u) by (nonlinear_arith);
    vstd::arithmetic::div_mod::lemma_mod_bound(x as int, u as int);
    if 2 * r > u || (2 * r == u && q % 2 == 1) {
        assert(spec_f32_of(x) == q * u + u);
        assert(spec_f32_of(x) / u == q + 1);
    } else {
        assert(spec_f32_of(x) == q * u);
        assert(spec_f32_of(x) / u == q);
    }
}

/// The terrain hash of `state`, in units of 2^-32 (see `spec_pcg_hash`).
pub fn pcg_hash(state: u32) -> (h: u64)
    ensures
        h == spec_pcg_hash(state),
        h <= 0x1_0000_0000,
{
    f32_value_of(pcg_word(state))
}

} // verus!

verus! {

/// A cell of the terrain grid (world position divided by the tile size).
#[derive(Clone, Copy, Debug, PartialEq, Eq, Structural)]
pub struct GridCoord {
    pub x: i32,
    pub y: i32,
}

/// Side of one square terrain tile, in world units.
pub const TILE_SIZE: u32 = 4096;

/// Structures scattered on each terrain tile.
pub const STRUCTURES_PER_TILE: usize = 20;

/// Frames in each structure sprite sheet (an 8 by 8 grid).
pub const SHEET_FRAMES: usize = 64;

/// Logical coordinate a tile holds before it first follows the player.
pub const UNSET_COORD: i32 = -999;

/// The hash seed of a terrain cell.
pub open spec fn spec_tile_seed(cell: GridCoord) -> i32 {
    cell.x.wrapping_mul(73_856_093i32) ^ cell.y.wrapping_mul(19_349_663i32)
}

/// The hash seed of the structure with index `local_index` on the cell
/// whose seed is `tile_seed`.
pub open spec fn spec_structure_seed(tile_seed: i32, local_index: usize) -> u32 {
    (tile_seed ^ (local_index as i32).wrapping_mul(83_492_791i32)) as u32
}

/// The hash seed of a terrain cell.
pub fn tile_seed(cell: GridCoord) -> (s: i32)
    ensures
        s == spec_tile_seed(cell),
{
    cell.x.wrapping_mul(73_856_093i32) ^ cell.y.wrapping_mul(19_349_663i32)
}

/// The hash seed of one structure of a terrain cell.
pub fn structure_seed(tile_seed: i32, local_index: usize) -> (s: u32)
    ensures
        s == spec_structure_seed(tile_seed, local_index),
{
    (tile_seed ^ (local_index as i32).wrapping_mul(83_492_791i32)) as u32
}

/// Ground texture of a terrain tile.
#[derive(Clone, Copy, Debug, PartialEq, Eq, Structural)]
pub enum TerrainKind {
    Grass,
    DarkGrass,
    Dirt,
    Stone,
    Sand,
}

/// `0.3f32` as a multiple of 2^-32: hashes below it give grass.
pub const GRASS_LIMIT: u64 = 1_288_490_240;

/// `0.5f32` as a multiple of 2^-32: hashes below it give dark grass.
pub const DARK_GRASS_LIMIT: u64 = 2_147_483_648;

/// `0.7f32` as a multiple of 2^-32: hashes below it give dirt.
pub const DIRT_LIMIT: u64 = 3_006_477_056;

/// `0.85f32` as a multiple of 2^-32: hashes below it give stone, the rest sand.
pub const STONE_LIMIT: u64 = 3_650_722_304;

/// The ground texture that a hash (a multiple of 2^-32) selects.
pub open spec fn spec_terrain_of_hash(h: nat) -> TerrainKind {
    if h < GRASS_LIMIT {
        TerrainKind::Grass
    } else if h < DARK_GRASS_LIMIT {
        TerrainKind::DarkGrass
    } else if h < DIRT_LIMIT {
        TerrainKind::Dirt
    } else if h < STONE_LIMIT {
        TerrainKind::Stone
    } else {
        TerrainKind::Sand
    }
}

/// The ground texture of a terrain cell.
pub open spec fn spec_tile_terrain(cell: GridCoord) -> TerrainKind {
    spec_terrain_of_hash(spec_pcg_hash(spec_tile_seed(cell) as u32))
}

/// The ground texture of a terrain cell; the world tiles and both maps
/// draw the same cell with it.
pub fn tile_terrain(cell: GridCoord) -> (k: TerrainKind)
    ensures
        k == spec_tile_terrain(cell),
        ({
            let h = spec_pcg_hash(spec_tile_seed(cell) as u32);
            &&& h < GRASS_LIMIT <==> k == TerrainKind::Grass
            &&& (GRASS_LIMIT <= h < DARK_GRASS_LIMIT) <==> k == TerrainKind::DarkGrass
            &&& (DARK_GRASS_LIMIT <= h < DIRT_LIMIT) <==> k == TerrainKind::Dirt
            &&& (DIRT_LIMIT <= h < STONE_LIMIT) <==> k == TerrainKind::Stone
            &&& STONE_LIMIT <= h <==> k == TerrainKind::Sand
        }),
{
    let h: u64 = pcg_hash(tile_seed(cell) as u32);
    if h < GRASS_LIMIT {
        TerrainKind::Grass
    } else if h < DARK_GRASS_LIMIT {
        TerrainKind::DarkGrass
    } else if h < DIRT_LIMIT {
        TerrainKind::Dirt
    } else if h < STONE_LIMIT {
        TerrainKind::Stone
    } else {
        TerrainKind::Sand
    }
}

impl TerrainKind {
    /// Colour of this ground on the minimap and the large map.
    pub fn map_color(self) -> (c: crate::color::Rgba)
        ensures
            c == (match self {
                TerrainKind::Grass => crate::color::opaque(20, 60, 20),
                TerrainKind::DarkGrass => crate::color::opaque(10, 40, 10),
                TerrainKind::Dirt => crate::color::opaque(60, 40, 20),
                TerrainKind::Stone => crate::color::opaque(50, 50, 50),
                TerrainKind::Sand => crate::color::opaque(80, 70, 30),
            }),
    {
        match self {
            TerrainKind::Grass => crate::color::Rgba { r: 20, g: 60, b: 20, a: 100 },
            TerrainKind::DarkGrass => crate::color::Rgba { r: 10, g: 40, b: 10, a: 100 },
            TerrainKind::Dirt => crate::color::Rgba { r: 60, g: 40, b: 20, a: 100 },
            TerrainKind::Stone => crate::color::Rgba { r: 50, g: 50, b: 50, a: 100 },
            TerrainKind::Sand => crate::color::Rgba { r: 80, g: 70, b: 30, a: 100 },
        }
    }
}

/// Which sprite sheet a structure is drawn from.
#[derive(Clone, Copy, Debug, PartialEq, Eq, Structural)]
pub enum StructureKind {
    Tree,
    Stone,
    Pillar,
}

/// `0.6f32` as a multiple of 2^-32: hashes below it give a tree.
pub const TREE_LIMIT: u64 = 2_576_980_480;

/// `0.9f32` as a multiple of 2^-32: hashes below it give a stone, the rest a pillar.
pub const STONE_PILE_LIMIT: u64 = 3_865_470_464;

/// The structure that a hash (a multiple of 2^-32) selects.
pub open spec fn spec_structure_of_hash(h: nat) -> StructureKind {
    if h < TREE_LIMIT {
        StructureKind::Tree
    } else if h < STONE_PILE_LIMIT {
        StructureKind::Stone
    } else {
        StructureKind::Pillar
    }
}

/// The sheet frame that a hash selects: `(hash * 64.0) as usize % 64`
/// on the float, that is the hash divided by 2^26, modulo 64.
pub open spec fn spec_frame_of_hash(h: nat) -> nat {
    (h / 0x400_0000) % (SHEET_FRAMES as nat)
}

/// Where and how a structure is drawn on its tile. The position within
/// the tile is `(hash / 2^32 - 0.5) * TILE_SIZE` on each axis.
#[derive(Clone, Copy, Debug, PartialEq, Eq, Structural)]
pub struct StructurePlacement {
    pub kind: StructureKind,
    pub atlas_index: usize,
    pub x_hash: u64,
    pub y_hash: u64,
}

/// The placement of the structure whose seed is `seed`: four hashes of
/// consecutive seeds give its x and y, its sheet and its frame.
pub fn place_structure(seed: u32) -> (p: StructurePlacement)
    ensures
        p.x_hash == spec_pcg_hash(seed),
        p.y_hash == spec_pcg_hash(seed.wrapping_add(1)),
        p.kind == spec_structure_of_hash(spec_pcg_hash(seed.wrapping_add(2))),
        p.atlas_index == spec_frame_of_hash(spec_pcg_hash(seed.wrapping_add(3))),
        p.atlas_index < SHEET_FRAMES,
        spec_pcg_hash(seed.wrapping_add(2)) < TREE_LIMIT ==> p.kind == StructureKind::Tree,
        TREE_LIMIT <= spec_pcg_hash(seed.wrapping_add(2)) < STONE_PILE_LIMIT ==> p.kind
            == StructureKind::Stone,
        STONE_PILE_LIMIT <= spec_pcg_hash(seed.wrapping_add(2)) ==> p.kind == StructureKind::Pillar,
        p.x_hash <= 0x1_0000_0000,
        p.y_hash <= 0x1_0000_0000,
{
    let x_hash: u64 = pcg_hash(seed);
    let y_hash: u64 = pcg_hash(seed.wrapping_add(1));
    let type_hash: u64 = pcg_hash(seed.wrapping_add(2));
    let frame_hash: u64 = pcg_hash(seed.wrapping_add(3));
    let kind = if type_hash < TREE_LIMIT {
        StructureKind::Tree
    } else if type_hash < STONE_PILE_LIMIT {
        StructureKind::Stone
    } else {
        StructureKind::Pillar
    };
    let atlas_index: usize = ((frame_hash / 0x400_0000) % 64) as usize;
    StructurePlacement { kind, atlas_index, x_hash, y_hash }
}

/// A ground tile of the 3 by 3 window of tiles around the player.
#[derive(Clone, Copy, Debug, PartialEq, Eq, Structural)]
pub struct TerrainTile {
    /// Position of the tile in the window, each axis in -1..=1.
    pub offset: GridCoord,
    /// The grid cell the tile currently shows.
    pub logical_coord: GridCoord,
}

/// The cell that a tile with `offset` shows when the player stands in `base`.
pub open spec fn spec_window_cell(base: GridCoord, offset: GridCoord) -> GridCoord {
    GridCoord { x: (base.x + offset.x) as i32, y: (base.y + offset.y) as i32 }
}

/// The tile after following the player into `base`, and whether its
/// ground and structures have to be drawn anew.
pub open spec fn spec_follow(tile: TerrainTile, base: GridCoord) -> (TerrainTile, bool) {
    let cell = spec_window_cell(base, tile.offset);
    (TerrainTile { offset: tile.offset, logical_coord: cell }, cell != tile.logical_coord)
}

/// True when the cell that a tile with `offset` shows for `base` fits in `i32`.
pub open spec fn window_fits(base: GridCoord, offset: GridCoord) -> bool {
    &&& i32::MIN <= base.x + offset.x <= i32::MAX
    &&& i32::MIN <= base.y + offset.y <= i32::MAX
}

impl TerrainTile {
    /// Moves the tile to the cell it shows while the player stands in
    /// `base`; returns true when that cell changed.
    pub fn follow(&mut self, base: GridCoord) -> (needs_refresh: bool)
        requires
            window_fits(base, old(self).offset),
        ensures
            (*final(self), needs_refresh) == spec_follow(*old(self), base),
    {
        let cell = GridCoord { x: base.x + self.offset.x, y: base.y + self.offset.y };
        let needs_refresh = !(cell.x == self.logical_coord.x && cell.y == self.logical_coord.y);
        self.logical_coord = cell;
        needs_refresh
    }
}

/// Following the player into the same cell twice changes nothing the
/// second time: the tile stays put and needs no redraw.
pub proof fn lemma_follow_settles(tile: TerrainTile, base: GridCoord)
    requires
        window_fits(base, tile.offset),
    ensures
        spec_follow(spec_follow(tile, base).0, base).0 == spec_follow(tile, base).0,
        !spec_follow(spec_follow(tile, base).0, base).1,
{
}

/// Each structure kind is chosen by its own band of the type hash:
/// trees below 0.6, stones in [0.6, 0.9), pillars from 0.9 up; so every
/// kind occurs, and stones take the middle band.
pub proof fn lemma_structure_bands(h: nat)
    ensures
        h < TREE_LIMIT <==> spec_structure_of_hash(h) == StructureKind::Tree,
        (TREE_LIMIT <= h < STONE_PILE_LIMIT) <==> spec_structure_of_hash(h) == StructureKind::Stone,
        STONE_PILE_LIMIT <= h <==> spec_structure_of_hash(h) == StructureKind::Pillar,
{
}

/// Each ground kind is chosen by its own band of the tile hash: grass
/// below 0.3, dark grass to 0.5, dirt to 0.7, stone to 0.85, sand above.
pub proof fn lemma_terrain_bands(h: nat)
    ensures
        h < GRASS_LIMIT <==> spec_terrain_of_hash(h) == TerrainKind::Grass,
        (GRASS_LIMIT <= h < DARK_GRASS_LIMIT) <==> spec_terrain_of_hash(h) == TerrainKind::DarkGrass,
        (DARK_GRASS_LIMIT <= h < DIRT_LIMIT) <==> spec_terrain_of_hash(h) == TerrainKind::Dirt,
        (DIRT_LIMIT <= h < STONE_LIMIT) <==> spec_terrain_of_hash(h) == TerrainKind::Stone,
        STONE_LIMIT <= h <==> spec_terrain_of_hash(h) == TerrainKind::Sand,
{
}

/// A tile is redrawn exactly when the cell it shows changes, on either
/// axis: it moves to the player's cell plus its offset, keeps its
/// offset, and asks for a redraw iff that cell differs from the old one.
pub proof fn lemma_follow_redraws_on_change(tile: TerrainTile, base: GridCoord)
    requires
        window_fits(base, tile.offset),
    ensures
        ({
            let (after, redraw) = spec_follow(tile, base);
            &&& after.offset == tile.offset
            &&& after.logical_coord.x == base.x + tile.offset.x
            &&& after.logical_coord.y == base.y + tile.offset.y
            &&& redraw <==> (after.logical_coord.x != tile.logical_coord.x
                || after.logical_coord.y != tile.logical_coord.y)
        }),
{
}

/// The sheet frame is the hash read as a fraction of one, times the 64
/// frames of a sheet, rounded down, modulo 64 (a hash of exactly one
/// wraps to frame 0).
pub proof fn lemma_frame_is_scaled_hash(h: nat)
    ensures
        spec_frame_of_hash(h) == (h * 64 / 0x1_0000_0000) % 64,
        spec_frame_of_hash(h) < 64,
        h < 0x1_0000_0000 ==> spec_frame_of_hash(h) == h * 64 / 0x1_0000_0000,
{
    vstd::arithmetic::div_mod::lemma_div_multiples_vanish_quotient(64, h as int, 0x400_0000);
    assert(64 * h == h * 64 && 64 * 0x400_0000 == 0x1_0000_0000int);
    if h < 0x1_0000_0000 {
        assert(h / 0x400_0000 < 64);
        vstd::arithmetic::div_mod::lemma_small_mod(h / 0x400_0000, 64);
    }
}

} // verus!
