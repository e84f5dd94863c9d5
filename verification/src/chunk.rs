use vstd::prelude::*;

verus! {

/// One cell's block-state id; 0 is air.
#[derive(Debug, Copy, Clone, PartialEq, Eq, Structural)]
pub struct BlockState {
    pub value: u16,
}

/// An index into the biome table.
#[derive(Debug, Copy, Clone, PartialEq, Eq, Structural)]
pub struct BiomeId {
    pub value: u8,
}

/// Packed light: the low nibble is block light, the high nibble sky light.
#[derive(Debug, Copy, Clone, PartialEq, Eq, Structural)]
pub struct LightLevel {
    pub value: u8,
}

impl LightLevel {
    /// The light used for shading: the brighter of the two nibbles.
    pub open spec fn spec_light(self) -> int {
        let b = self.value % 16;
        let s = self.value / 16;
        if b >= s {
            b as int
        } else {
            s as int
        }
    }

    pub fn block_light(self) -> (r: u8)
        ensures
            r == self.value % 16,
            r <= 15,
    {
        proof {
            let v = self.value;
            assert(v & 0xf == v % 16) by (bit_vector);
        }
        self.value & 0xf
    }

    pub fn sky_light(self) -> (r: u8)
        ensures
            r == self.value / 16,
            r <= 15,
    {
        proof {
            let v = self.value;
            assert(v >> 4 == v / 16) by (bit_vector);
        }
        self.value >> 4
    }

    /// The brighter of block light and sky light.
    pub fn light(self) -> (r: u8)
        ensures
            r as int == self.spec_light(),
            r <= 15,
    {
        let b = self.block_light();
        let s = self.sky_light();
        if b >= s {
            b
        } else {
            s
        }
    }
}

/// A 16 by 16 by 16 grid of cells, stored flat; cell (x, y, z) sits at
/// index (y * 16 + z) * 16 + x.
#[derive(Debug, Clone)]
pub struct Chunk {
    pub blocks: Vec<BlockState>,
    pub light_levels: Vec<LightLevel>,
}

impl Chunk {
    pub open spec fn wf(self) -> bool {
        self.blocks.len() == 4096 && self.light_levels.len() == 4096
    }

    pub open spec fn spec_block(self, x: int, y: int, z: int) -> u16 {
        self.blocks[(y * 16 + z) * 16 + x].value
    }

    pub open spec fn spec_light_level(self, x: int, y: int, z: int) -> LightLevel {
        self.light_levels[(y * 16 + z) * 16 + x]
    }

    /// A chunk filled with one block and one light value.
    pub fn filled(block: u16, light: u8) -> (r: Chunk)
        ensures
            r.wf(),
            forall|i: int| 0 <= i < 4096 ==> (#[trigger] r.blocks[i]).value == block,
            forall|i: int| 0 <= i < 4096 ==> (#[trigger] r.light_levels[i]).value == light,
    {
        let mut blocks: Vec<BlockState> = Vec::new();
        let mut light_levels: Vec<LightLevel> = Vec::new();
        let mut i: usize = 0;
        while i < 4096
            invariant
                i <= 4096,
                blocks.len() == i,
                light_levels.len() == i,
                forall|j: int| 0 <= j < i ==> (#[trigger] blocks[j]).value == block,
                forall|j: int| 0 <= j < i ==> (#[trigger] light_levels[j]).value == light,
            decreases 4096 - i,
        {
            blocks.push(BlockState { value: block });
            light_levels.push(LightLevel { value: light });
            i += 1;
        }
        Chunk { blocks, light_levels }
    }

    /// The sentinel that stands in for chunks past the world edge: all air,
    /// full sky light.
    pub fn empty() -> (r: Chunk)
        ensures
            r.wf(),
            forall|i: int| 0 <= i < 4096 ==> (#[trigger] r.blocks[i]).value == 0,
            forall|i: int| 0 <= i < 4096 ==> (#[trigger] r.light_levels[i]).value == 0xf0,
    {
        Chunk::filled(0, 0xf0)
    }

    pub fn get(&self, x: usize, y: usize, z: usize) -> (r: (BlockState, LightLevel))
        requires
            self.wf(),
            x < 16,
            y < 16,
            z < 16,
        ensures
            r.0.value == self.spec_block(x as int, y as int, z as int),
            r.1 == self.spec_light_level(x as int, y as int, z as int),
    {
        let i = (y * 16 + z) * 16 + x;
        (self.blocks[i], self.light_levels[i])
    }

    /// Writes one cell.
    pub fn set(&mut self, x: usize, y: usize, z: usize, b: BlockState, l: LightLevel)
        requires
            old(self).wf(),
            x < 16,
            y < 16,
            z < 16,
        ensures
            final(self).wf(),
            final(self).spec_block(x as int, y as int, z as int) == b.value,
            final(self).spec_light_level(x as int, y as int, z as int) == l,
            forall|i: int|
                0 <= i < 4096 && i != (y * 16 + z) * 16 + x ==> (#[trigger] final(self).blocks[i])
                    == old(self).blocks[i] && final(self).light_levels[i]
                    == old(self).light_levels[i],
    {
        let i = (y * 16 + z) * 16 + x;
        self.blocks[i] = b;
        self.light_levels[i] = l;
    }
}

/// The vertical stack of chunks at one horizontal position, with the
/// column's 16 by 16 biome grid (cell (x, z) at index z * 16 + x).
#[derive(Debug, Clone)]
pub struct ChunkColumn {
    pub chunks: Vec<Chunk>,
    pub biomes: Vec<BiomeId>,
}

impl ChunkColumn {
    pub open spec fn wf(self) -> bool {
        &&& forall|i: int| 0 <= i < self.chunks.len() ==> (#[trigger] self.chunks[i]).wf()
        &&& self.biomes.len() == 256
    }
}

/// The 3 by 3 by 3 block of chunks around the one being meshed, with the
/// nine biome grids of the columns around it. Chunk (cx, cy, cz), each
/// coordinate 0 to 2, sits at index (cx * 3 + cy) * 3 + cz; a grid slot is
/// `None` where no column exists. Missing chunks are filled with the empty
/// sentinel before the neighborhood is built.
#[derive(Debug, Clone)]
pub struct Neighborhood {
    pub chunks: Vec<Chunk>,
    pub biomes: Vec<Option<Vec<BiomeId>>>,
}

impl Neighborhood {
    pub open spec fn wf(self) -> bool {
        &&& self.chunks.len() == 27
        &&& forall|i: int| 0 <= i < 27 ==> (#[trigger] self.chunks[i]).wf()
        &&& self.biomes.len() == 9
        &&& forall|i: int|
            0 <= i < 9 ==> match #[trigger] self.biomes[i] {
                Some(g) => g.len() == 256,
                None => true,
            }
    }

    /// The block at a position relative to the central chunk's origin; one
    /// chunk of headroom on every side.
    pub open spec fn spec_block_at(self, x: int, y: int, z: int) -> u16 {
        let c = self.chunks[(((x + 16) / 16) * 3 + ((y + 16) / 16)) * 3 + ((z + 16) / 16)];
        c.spec_block((x + 16) % 16, (y + 16) % 16, (z + 16) % 16)
    }

    pub open spec fn spec_light_at(self, x: int, y: int, z: int) -> LightLevel {
        let c = self.chunks[(((x + 16) / 16) * 3 + ((y + 16) / 16)) * 3 + ((z + 16) / 16)];
        c.spec_light_level((x + 16) % 16, (y + 16) % 16, (z + 16) % 16)
    }

    /// The biome at a horizontal position, if its column exists; grid
    /// (bx, bz), each 0 to 2, sits at index bz * 3 + bx.
    pub open spec fn spec_biome_at(self, x: int, z: int) -> Option<BiomeId> {
        match self.biomes[((z + 16) / 16) * 3 + ((x + 16) / 16)] {
            Some(g) => Some(g[((z + 16) % 16) * 16 + ((x + 16) % 16)]),
            None => None,
        }
    }

    pub fn at(&self, x: i32, y: i32, z: i32) -> (r: (BlockState, LightLevel))
        requires
            self.wf(),
            -16 <= x < 32,
            -16 <= y < 32,
            -16 <= z < 32,
        ensures
            r.0.value == self.spec_block_at(x as int, y as int, z as int),
            r.1 == self.spec_light_at(x as int, y as int, z as int),
    {
        let cx = ((x + 16) / 16) as usize;
        let cy = ((y + 16) / 16) as usize;
        let cz = ((z + 16) / 16) as usize;
        let lx = ((x + 16) % 16) as usize;
        let ly = ((y + 16) % 16) as usize;
        let lz = ((z + 16) % 16) as usize;
        let c = &self.chunks[(cx * 3 + cy) * 3 + cz];
        c.get(lx, ly, lz)
    }

    pub fn biome_at(&self, x: i32, z: i32) -> (r: Option<BiomeId>)
        requires
            self.wf(),
            -16 <= x < 32,
            -16 <= z < 32,
        ensures
            r == self.spec_biome_at(x as int, z as int),
    {
        let bx = ((x + 16) / 16) as usize;
        let bz = ((z + 16) / 16) as usize;
        match &self.biomes[bz * 3 + bx] {
            Some(g) => Some(g[(((z + 16) % 16) as usize) * 16 + (((x + 16) % 16) as usize)]),
            None => None,
        }
    }
}

} // verus!

verus! {

/// The world's chunk columns, keyed by horizontal chunk coordinates.
pub struct ChunkManager {
    pub chunk_columns: Vec<((i32, i32), ChunkColumn)>,
}

/// First column stored under a coordinate pair.
pub open spec fn spec_column_at(
    columns: Seq<((i32, i32), ChunkColumn)>,
    x: int,
    z: int,
) -> Option<ChunkColumn>
    decreases columns.len(),
{
    if columns.len() == 0 {
        None
    } else if columns[0].0.0 == x && columns[0].0.1 == z {
        Some(columns[0].1)
    } else {
        spec_column_at(columns.drop_first(), x, z)
    }
}

/// The chunk that stands at slot `(dx, dy, dz)` (each 0 to 2) of the
/// neighborhood of chunk `(x, y, z)`: the stored chunk when its column and
/// layer exist, else the empty sentinel. The sentinel's cells are air under
/// full sky light.
pub open spec fn spec_neighbor_chunk(
    columns: Seq<((i32, i32), ChunkColumn)>,
    x: int,
    y: int,
    z: int,
    dx: int,
    dy: int,
    dz: int,
    c: Chunk,
) -> bool {
    match spec_column_at(columns, x + dx - 1, z + dz - 1) {
        Some(col) => {
            let ly = y + dy - 1;
            if 0 <= ly < col.chunks.len() {
                c.blocks@ == col.chunks[ly].blocks@ && c.light_levels@
                    == col.chunks[ly].light_levels@
            } else {
                spec_empty_chunk(c)
            }
        },
        None => spec_empty_chunk(c),
    }
}

fn chunk_dup(c: &Chunk) -> (r: Chunk)
    ensures
        r.blocks@ == c.blocks@,
        r.light_levels@ == c.light_levels@,
{
    let mut blocks: Vec<BlockState> = Vec::new();
    let mut light_levels: Vec<LightLevel> = Vec::new();
    let mut i: usize = 0;
    while i < c.blocks.len()
        invariant
            i <= c.blocks.len(),
            blocks.len() == i,
            forall|j: int| 0 <= j < i ==> #[trigger] blocks[j] == c.blocks[j],
        decreases c.blocks.len() - i,
    {
        blocks.push(c.blocks[i]);
        i += 1;
    }
    let mut i: usize = 0;
    while i < c.light_levels.len()
        invariant
            i <= c.light_levels.len(),
            light_levels.len() == i,
            forall|j: int| 0 <= j < i ==> #[trigger] light_levels[j] == c.light_levels[j],
        decreases c.light_levels.len() - i,
    {
        light_levels.push(c.light_levels[i]);
        i += 1;
    }
    proof {
        assert(blocks@ =~= c.blocks@);
        assert(light_levels@ =~= c.light_levels@);
    }
    Chunk { blocks, light_levels }
}

pub open spec fn spec_empty_chunk(c: Chunk) -> bool {
    &&& c.wf()
    &&& forall|i: int| 0 <= i < 4096 ==> (#[trigger] c.blocks[i]).value == 0
    &&& forall|i: int| 0 <= i < 4096 ==> (#[trigger] c.light_levels[i]).value == 0xf0
}

impl ChunkManager {
    pub open spec fn wf(self) -> bool {
        forall|i: int| 0 <= i < self.chunk_columns.len() ==> (#[trigger] self.chunk_columns[i]).1.wf()
    }

    pub fn new() -> (r: ChunkManager)
        ensures
            r.wf(),
            r.chunk_columns.len() == 0,
    {
        ChunkManager { chunk_columns: Vec::new() }
    }

    /// Stores a column under its horizontal position; a newer column
    /// shadows an older one at the same position.
    pub fn add_chunk_column(&mut self, position: (i32, i32), c: ChunkColumn)
        requires
            old(self).wf(),
            c.wf(),
        ensures
            final(self).wf(),
            final(self).chunk_columns.len() == old(self).chunk_columns.len() + 1,
            final(self).chunk_columns[0] == ((position, c)),
            final(self).chunk_columns@.skip(1) == old(self).chunk_columns@,
    {
        self.chunk_columns.insert(0, (position, c));
    }

    fn column_at(&self, x: i32, z: i32) -> (r: Option<&ChunkColumn>)
        ensures
            match r {
                Some(c) => spec_column_at(self.chunk_columns@, x as int, z as int) == Some(*c)
                    && exists|k: int|
                    0 <= k < self.chunk_columns@.len() && (#[trigger] self.chunk_columns@[k]).1
                        == *c,
                None => spec_column_at(self.chunk_columns@, x as int, z as int) is None,
            },
    {
        proof {
            assert(self.chunk_columns@.skip(0) =~= self.chunk_columns@);
        }
        let mut i: usize = 0;
        while i < self.chunk_columns.len()
            invariant
                i <= self.chunk_columns.len(),
                spec_column_at(self.chunk_columns@, x as int, z as int) == spec_column_at(
                    self.chunk_columns@.skip(i as int),
                    x as int,
                    z as int,
                ),
            decreases self.chunk_columns.len() - i,
        {
            let (pos, col) = &self.chunk_columns[i];
            proof {
                assert(self.chunk_columns@.skip(i as int)[0] == self.chunk_columns@[i as int]);
                assert(self.chunk_columns@.skip(i as int).drop_first() =~= self.chunk_columns@.skip(
                    i as int + 1,
                ));
            }
            if pos.0 == x && pos.1 == z {
                proof {
                    assert((self.chunk_columns@[i as int]).1 == *col);
                }
                return Some(col);
            }
            i += 1;
        }
        None
    }

    /// Assembles the 3 by 3 by 3 chunk neighborhood and the nine biome
    /// grids around chunk `(x, y, z)`, falling back to the empty sentinel
    /// past the world's edges so neighbor sampling never needs a bounds
    /// check.
    pub fn neighborhood(&self, x: i32, y: i32, z: i32) -> (r: Neighborhood)
        requires
            self.wf(),
            -1000000 <= x <= 1000000,
            -1000000 <= y <= 1000000,
            -1000000 <= z <= 1000000,
        ensures
            r.wf(),
            forall|dx: int, dy: int, dz: int|
                #![trigger r.chunks[(dx * 3 + dy) * 3 + dz]]
                0 <= dx < 3 && 0 <= dy < 3 && 0 <= dz < 3 ==> spec_neighbor_chunk(
                    self.chunk_columns@,
                    x as int,
                    y as int,
                    z as int,
                    dx,
                    dy,
                    dz,
                    r.chunks[(dx * 3 + dy) * 3 + dz],
                ),
            forall|dx: int, dz: int|
                #![trigger r.biomes[dz * 3 + dx]]
                0 <= dx < 3 && 0 <= dz < 3 ==> (match spec_column_at(
                    self.chunk_columns@,
                    x + dx - 1,
                    z + dz - 1,
                ) {
                    Some(col) => r.biomes[dz * 3 + dx] matches Some(g) && g@ == col.biomes@,
                    None => r.biomes[dz * 3 + dx] is None,
                }),
    {
        let mut chunks: Vec<Chunk> = Vec::new();
        let mut dx: usize = 0;
        while dx < 3
            invariant
                self.wf(),
                -1000000 <= x <= 1000000,
                -1000000 <= y <= 1000000,
                -1000000 <= z <= 1000000,
                dx <= 3,
                chunks.len() == dx * 9,
                forall|i: int| 0 <= i < chunks.len() ==> (#[trigger] chunks[i]).wf(),
                forall|ex: int, ey: int, ez: int|
                    #![trigger chunks[(ex * 3 + ey) * 3 + ez]]
                    0 <= ex < dx && 0 <= ey < 3 && 0 <= ez < 3 ==> spec_neighbor_chunk(
                        self.chunk_columns@,
                        x as int,
                        y as int,
                        z as int,
                        ex,
                        ey,
                        ez,
                        chunks[(ex * 3 + ey) * 3 + ez],
                    ),
            decreases 3 - dx,
        {
            let mut dy: usize = 0;
            while dy < 3
                invariant
                    self.wf(),
                    -1000000 <= x <= 1000000,
                    -1000000 <= y <= 1000000,
                    -1000000 <= z <= 1000000,
                    dx < 3,
                    dy <= 3,
                    chunks.len() == dx * 9 + dy * 3,
                    forall|i: int| 0 <= i < chunks.len() ==> (#[trigger] chunks[i]).wf(),
                    forall|ex: int, ey: int, ez: int|
                        #![trigger chunks[(ex * 3 + ey) * 3 + ez]]
                        0 <= ex < 3 && 0 <= ey < 3 && 0 <= ez < 3 && (ex < dx || (ex == dx && ey
                            < dy)) ==> spec_neighbor_chunk(
                            self.chunk_columns@,
                            x as int,
                            y as int,
                            z as int,
                            ex,
                            ey,
                            ez,
                            chunks[(ex * 3 + ey) * 3 + ez],
                        ),
                decreases 3 - dy,
            {
                let mut dz: usize = 0;
                while dz < 3
                    invariant
                        self.wf(),
                        -1000000 <= x <= 1000000,
                        -1000000 <= y <= 1000000,
                        -1000000 <= z <= 1000000,
                        dx < 3,
                        dy < 3,
                        dz <= 3,
                        chunks.len() == dx * 9 + dy * 3 + dz,
                        forall|i: int| 0 <= i < chunks.len() ==> (#[trigger] chunks[i]).wf(),
                        forall|ex: int, ey: int, ez: int|
                            #![trigger chunks[(ex * 3 + ey) * 3 + ez]]
                            0 <= ex < 3 && 0 <= ey < 3 && 0 <= ez < 3 && (ex < dx || (ex == dx && ey
                                < dy) || (ex == dx && ey == dy && ez < dz))
                                ==> spec_neighbor_chunk(
                                self.chunk_columns@,
                                x as int,
                                y as int,
                                z as int,
                                ex,
                                ey,
                                ez,
                                chunks[(ex * 3 + ey) * 3 + ez],
                            ),
                    decreases 3 - dz,
                {
                    let cell: Chunk = match self.column_at(x + dx as i32 - 1, z + dz as i32 - 1) {
                        Some(col) => {
                            proof {
                                assert(col.wf());
                            }
                            let ly = y + dy as i32 - 1;
                            if 0 <= ly && (ly as usize) < col.chunks.len() {
                                chunk_dup(&col.chunks[ly as usize])
                            } else {
                                Chunk::empty()
                            }
                        },
                        None => Chunk::empty(),
                    };
                    proof {
                        assert(cell.wf());
                        assert(spec_neighbor_chunk(
                            self.chunk_columns@,
                            x as int,
                            y as int,
                            z as int,
                            dx as int,
                            dy as int,
                            dz as int,
                            cell,
                        ));
                    }
                    chunks.push(cell);
                    dz += 1;
                }
                dy += 1;
            }
            dx += 1;
        }
        let mut biomes: Vec<Option<Vec<BiomeId>>> = Vec::new();
        let mut gz: usize = 0;
        while gz < 3
            invariant
                self.wf(),
                -1000000 <= x <= 1000000,
                -1000000 <= z <= 1000000,
                gz <= 3,
                biomes.len() == gz * 3,
                forall|ex: int, ez: int|
                    #![trigger biomes[ez * 3 + ex]]
                    0 <= ex < 3 && 0 <= ez < gz ==> (match spec_column_at(
                        self.chunk_columns@,
                        x + ex - 1,
                        z + ez - 1,
                    ) {
                        Some(col) => biomes[ez * 3 + ex] matches Some(g) && g@ == col.biomes@,
                        None => biomes[ez * 3 + ex] is None,
                    }),
                forall|i: int|
                    0 <= i < biomes.len() ==> match #[trigger] biomes[i] {
                        Some(g) => g.len() == 256,
                        None => true,
                    },
            decreases 3 - gz,
        {
            let mut gx: usize = 0;
            while gx < 3
                invariant
                    self.wf(),
                    -1000000 <= x <= 1000000,
                    -1000000 <= z <= 1000000,
                    gz < 3,
                    gx <= 3,
                    biomes.len() == gz * 3 + gx,
                    forall|ex: int, ez: int|
                        #![trigger biomes[ez * 3 + ex]]
                        0 <= ex < 3 && 0 <= ez < 3 && (ez < gz || (ez == gz && ex < gx)) ==> (
                        match spec_column_at(self.chunk_columns@, x + ex - 1, z + ez - 1) {
                            Some(col) => biomes[ez * 3 + ex] matches Some(g) && g@ == col.biomes@,
                            None => biomes[ez * 3 + ex] is None,
                        }),
                    forall|i: int|
                        0 <= i < biomes.len() ==> match #[trigger] biomes[i] {
                            Some(g) => g.len() == 256,
                            None => true,
                        },
                decreases 3 - gx,
            {
                let grid: Option<Vec<BiomeId>> = match self.column_at(
                    x + gx as i32 - 1,
                    z + gz as i32 - 1,
                ) {
                    Some(col) => {
                        proof {
                            assert(col.wf());
                        }
                        let mut g: Vec<BiomeId> = Vec::new();
                        let mut i: usize = 0;
                        while i < 256
                            invariant
                                col.biomes.len() == 256,
                                i <= 256,
                                g.len() == i,
                                forall|j: int| 0 <= j < i ==> #[trigger] g[j] == col.biomes[j],
                            decreases 256 - i,
                        {
                            g.push(col.biomes[i]);
                            i += 1;
                        }
                        proof {
                            assert(g@ =~= col.biomes@);
                        }
                        Some(g)
                    },
                    None => None,
                };
                biomes.push(grid);
                gx += 1;
            }
            gz += 1;
        }
        Neighborhood { chunks, biomes }
    }
}

} // verus!
