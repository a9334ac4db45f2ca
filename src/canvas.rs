use vstd::prelude::*;

use crate::color::RGBA;

verus! {

/// Number of cells of the canvas: the keyboard zone followed by the mouse zone.
pub const CANVAS_SIZE: usize = 144 + 36;

/// The color of a cell that nothing has painted yet.
pub open spec fn blank() -> RGBA {
    RGBA { r: 0, g: 0, b: 0, a: 0 }
}

/// The shared LED surface: a fixed-size sequence of RGBA cells.
#[derive(Debug, Clone)]
pub struct Canvas {
    data: Vec<RGBA>,
}

impl View for Canvas {
    type V = Seq<RGBA>;

    closed spec fn view(&self) -> Seq<RGBA> {
        self.data@
    }
}

/// Law of the canvas: a write at `i` is read back at `i`, and every other
/// cell keeps the value it had.
pub proof fn lemma_canvas_write_read(cells: Seq<RGBA>, i: int, j: int, color: RGBA)
    requires
        0 <= i < cells.len(),
        0 <= j < cells.len(),
    ensures
        cells.update(i, color).len() == cells.len(),
        cells.update(i, color)[i] == color,
        j != i ==> cells.update(i, color)[j] == cells[j],
{
}

impl Canvas {
    /// A canvas of `CANVAS_SIZE` blank cells.
    pub fn new() -> (r: Self)
        ensures
            r@ == Seq::new(CANVAS_SIZE as nat, |_i: int| blank()),
    {
        Self::with_size(CANVAS_SIZE)
    }

    /// A canvas of `size` blank cells.
    pub fn with_size(size: usize) -> (r: Self)
        ensures
            r@ == Seq::new(size as nat, |_i: int| blank()),
    {
        let mut data: Vec<RGBA> = Vec::with_capacity(size);
        let mut i: usize = 0;
        while i < size
            invariant
                i <= size,
                data@ == Seq::new(i as nat, |_i: int| blank()),
            decreases size - i,
        {
            data.push(RGBA { r: 0, g: 0, b: 0, a: 0 });
            i = i + 1;
        }
        Self { data }
    }

    /// Number of cells.
    pub fn len(&self) -> (r: usize)
        ensures
            r == self@.len(),
    {
        self.data.len()
    }

    /// The color of cell `index`.
    pub fn get(&self, index: usize) -> (r: RGBA)
        requires
            index < self@.len(),
        ensures
            r == self@[index as int],
    {
        self.data[index]
    }

    /// Paints cell `index`; no other cell changes.
    pub fn set(&mut self, index: usize, color: RGBA)
        requires
            index < old(self)@.len(),
        ensures
            final(self)@ == old(self)@.update(index as int, color),
    {
        self.data[index] = color;
    }

    /// Paints every cell with `color`.
    pub fn fill(&mut self, color: RGBA)
        ensures
            final(self)@ == Seq::new(old(self)@.len(), |_i: int| color),
    {
        let n = self.data.len();
        let mut i: usize = 0;
        while i < n
            invariant
                i <= n,
                n == old(self)@.len(),
                self@.len() == n,
                forall|k: int| 0 <= k < i ==> self@[k] == color,
            decreases n - i,
        {
            self.data[i] = color;
            i = i + 1;
        }
        assert(self@ =~= Seq::new(old(self)@.len(), |_i: int| color));
    }

    /// The cells in order, as handed to a device driver.
    pub fn cells(&self) -> (r: &[RGBA])
        ensures
            r@ == self@,
    {
        self.data.as_slice()
    }
}

/// Cells carried by a canvas payload: each complete group of four bytes is
/// one cell (`r`, `g`, `b`, `a`), up to `CANVAS_SIZE` cells; cells that the
/// payload does not reach stay blank.
pub open spec fn payload_cell(payload: Seq<u8>, k: int) -> RGBA {
    if 4 * k + 3 < payload.len() {
        RGBA {
            r: payload[4 * k],
            g: payload[4 * k + 1],
            b: payload[4 * k + 2],
            a: payload[4 * k + 3],
        }
    } else {
        blank()
    }
}

/// Builds the canvas that a client sends as a flat byte payload.
pub fn decode_canvas_payload(payload: &[u8]) -> (r: Canvas)
    ensures
        r@ == Seq::new(CANVAS_SIZE as nat, |k: int| payload_cell(payload@, k)),
{
    let mut canvas = Canvas::new();
    let mut k: usize = 0;
    while k < CANVAS_SIZE && 4 * k + 3 < payload.len()
        invariant
            k <= CANVAS_SIZE,
            canvas@.len() == CANVAS_SIZE,
            forall|j: int| 0 <= j < k ==> canvas@[j] == payload_cell(payload@, j),
            forall|j: int| k <= j < CANVAS_SIZE ==> canvas@[j] == blank(),
        decreases CANVAS_SIZE - k,
    {
        let i = 4 * k;
        canvas.set(
            k,
            RGBA { r: payload[i], g: payload[i + 1], b: payload[i + 2], a: payload[i + 3] },
        );
        k = k + 1;
    }
    assert forall|j: int| k <= j < CANVAS_SIZE implies canvas@[j] == payload_cell(payload@, j) by {
        assert(4 * j + 3 >= payload@.len());
    }
    assert(canvas@ =~= Seq::new(CANVAS_SIZE as nat, |k: int| payload_cell(payload@, k)));
    canvas
}

} // verus!
