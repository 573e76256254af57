use vstd::prelude::*;

verus! {

/// Cells along x of the density grid the viewer renders.
pub const GRID_WIDTH: u32 = 25;

/// Cells along y of the density grid the viewer renders.
pub const GRID_HEIGHT: u32 = 25;

/// Cells along z of the density grid the viewer renders.
pub const GRID_DEPTH: u32 = 25;

/// Largest density a cell may hold; raw samples above it become 0.
pub const MAX_DENSITY: u8 = 127;

/// A raw byte sample as a cell density: samples above `MAX_DENSITY` map to
/// 0 rather than wrapping or saturating.
pub open spec fn quantized(x: u8) -> u8 {
    if x > MAX_DENSITY {
        0
    } else {
        x
    }
}

/// Each raw sample of `s` quantized, in order.
pub open spec fn quantized_cells(s: Seq<u8>) -> Seq<u8> {
    s.map_values(|x: u8| quantized(x))
}

pub fn quantize_sample(x: u8) -> (r: u8)
    ensures
        r == quantized(x),
        r <= MAX_DENSITY,
{
    if x > MAX_DENSITY {
        0
    } else {
        x
    }
}

/// Dimensions and cell values of a density grid; cells run x fastest,
/// then y, then z.
pub struct GridModel {
    pub width: nat,
    pub height: nat,
    pub depth: nat,
    pub cells: Seq<u8>,
}

impl GridModel {
    pub open spec fn wf(&self) -> bool {
        &&& self.cells.len() == self.width * self.height * self.depth
        &&& forall|i: int| 0 <= i < self.cells.len() ==> self.cells[i] <= MAX_DENSITY
    }
}

/// An immutable 3D grid of cell densities, each at most `MAX_DENSITY`.
pub struct DensityGrid {
    width: u32,
    height: u32,
    depth: u32,
    cells: Vec<u8>,
}

impl View for DensityGrid {
    type V = GridModel;

    closed spec fn view(&self) -> GridModel {
        GridModel {
            width: self.width as nat,
            height: self.height as nat,
            depth: self.depth as nat,
            cells: self.cells@,
        }
    }
}

impl DensityGrid {
    pub open spec fn wf(&self) -> bool {
        self@.wf()
    }

    /// The grid of `width * height * depth` cells quantized from raw
    /// `samples`, or `None` when the number of samples differs from that.
    pub fn from_samples(width: u32, height: u32, depth: u32, samples: &Vec<u8>) -> (r: Option<
        DensityGrid,
    >)
        ensures
            r is Some <==> samples@.len() == width * height * depth,
            r matches Some(g) ==> {
                &&& g.wf()
                &&& g@.width == width
                &&& g@.height == height
                &&& g@.depth == depth
                &&& g@.cells == quantized_cells(samples@)
            },
    {
        proof {
            let (w, h, d) = (width as int, height as int, depth as int);
            assert(0 <= w * h <= 0xffff_ffff * 0xffff_ffff) by (nonlinear_arith)
                requires
                    0 <= w <= 0xffff_ffff,
                    0 <= h <= 0xffff_ffff,
            ;
            assert(0 <= w * h * d <= 0xffff_ffff * 0xffff_ffff * 0xffff_ffff) by (nonlinear_arith)
                requires
                    0 <= w * h <= 0xffff_ffff * 0xffff_ffff,
                    0 <= d <= 0xffff_ffff,
            ;
        }
        let wh: u64 = width as u64 * height as u64;
        let whd: u128 = wh as u128 * depth as u128;
        if whd != samples.len() as u128 {
            return None;
        }
        let mut cells: Vec<u8> = Vec::with_capacity(samples.len());
        let mut i: usize = 0;
        while i < samples.len()
            invariant
                i <= samples@.len(),
                cells@ == quantized_cells(samples@.take(i as int)),
            decreases samples@.len() - i,
        {
            cells.push(quantize_sample(samples[i]));
            i = i + 1;
            assert(cells@ =~= quantized_cells(samples@.take(i as int)));
        }
        assert(samples@.take(samples@.len() as int) =~= samples@);
        let g = DensityGrid { width, height, depth, cells };
        Some(g)
    }

    pub fn width(&self) -> (r: u32)
        ensures
            r == self@.width,
    {
        self.width
    }

    pub fn height(&self) -> (r: u32)
        ensures
            r == self@.height,
    {
        self.height
    }

    pub fn depth(&self) -> (r: u32)
        ensures
            r == self@.depth,
    {
        self.depth
    }

    /// The cell densities, x fastest, then y, then z.
    pub fn cells(&self) -> (r: &Vec<u8>)
        ensures
            r@ == self@.cells,
    {
        &self.cells
    }
}

/// Building a grid twice from the same samples gives bit-identical cells,
/// each within the density range.
pub proof fn lemma_grid_is_deterministic(s: Seq<u8>, t: Seq<u8>)
    requires
        s == t,
    ensures
        quantized_cells(s) == quantized_cells(t),
        forall|i: int| 0 <= i < s.len() ==> #[trigger] quantized_cells(s)[i] <= MAX_DENSITY,
{
}

} // verus!
