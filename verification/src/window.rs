use vstd::prelude::*;
use vstd::string::StrSliceExecFns;
use vstd::string::StringExecFns;

verus! {

/// A rectangular region of the frame that can render itself.  `render`
/// returns the block to draw, or nothing when neither the window's own
/// state nor `force` asks for a redraw; `position` is the block's
/// top-left corner on the frame.
pub trait Window {
    fn render(&mut self, force: bool) -> Option<Vec<Vec<char>>>;

    fn position(&self) -> (usize, usize);
}

/// A window's placement: size and top-left corner.
#[derive(Clone, Copy, Debug, PartialEq, Eq, Structural)]
pub struct Canvas {
    pub width: usize,
    pub height: usize,
    pub x: usize,
    pub y: usize,
}

impl Canvas {
    /// Whether a window-local cell lies on the canvas.
    pub fn inside(&self, x: usize, y: usize) -> (r: bool)
        ensures
            r == (x < self.width && y < self.height),
    {
        x < self.width && y < self.height
    }
}

/// A row of `w` blanks.
pub open spec fn blank_row(w: int) -> Seq<char> {
    Seq::new(w as nat, |i: int| ' ')
}

/// One text row laid out from `data` starting at character `k`: characters
/// fill the row left to right until it is full, a newline ends the row
/// early (consuming the newline, leaving the rest blank), and exhausted
/// text leaves blanks.  Yields the row and the next read position.
pub open spec fn text_row(data: Seq<char>, k: int, w: int) -> (Seq<char>, int)
    decreases w,
{
    if w <= 0 {
        (Seq::empty(), k)
    } else if k < 0 || k >= data.len() {
        (blank_row(w), k)
    } else if data[k] == '\n' {
        (blank_row(w), k + 1)
    } else {
        let (rest, k2) = text_row(data, k + 1, w - 1);
        (seq![data[k]] + rest, k2)
    }
}

/// `h` text rows of width `w` laid out from `data` starting at `k`.
pub open spec fn text_rows(data: Seq<char>, k: int, w: int, h: int) -> Seq<Seq<char>>
    decreases h,
{
    if h <= 0 {
        Seq::empty()
    } else {
        let (row, k2) = text_row(data, k, w);
        seq![row] + text_rows(data, k2, w, h - 1)
    }
}

/// A fixed block of text on the frame.
pub struct TextWindow {
    pub window: Canvas,
    pub data: String,
    pub update_pending: bool,
}

impl TextWindow {
    /// Redraw only when the window asks for it or the caller forces it:
    /// nothing when neither holds, else the laid-out text.  The window
    /// itself is left untouched.
    pub fn render(&mut self, force: bool) -> (r: Option<Vec<Vec<char>>>)
        ensures
            *final(self) == *old(self),
            r is None <==> (!old(self).update_pending && !force),
            r matches Some(grid) ==> {
                &&& grid@.len() == old(self).window.height
                &&& forall|j: int|
                    0 <= j < old(self).window.height ==> (#[trigger] grid@[j])@ == text_rows(
                        old(self).data@,
                        0,
                        old(self).window.width as int,
                        old(self).window.height as int,
                    )[j]
            },
    {
        if !self.update_pending && !force {
            return None;
        }
        Some(self.render_grid())
    }

    /// Lay the text out on the canvas.
    pub fn render_grid(&self) -> (r: Vec<Vec<char>>)
        ensures
            r@.len() == self.window.height,
            forall|j: int|
                0 <= j < self.window.height ==> (#[trigger] r@[j])@ == text_rows(
                    self.data@,
                    0,
                    self.window.width as int,
                    self.window.height as int,
                )[j],
    {
        let n: usize = self.data.as_str().unicode_len();
        let mut r: Vec<Vec<char>> = Vec::new();
        let mut k: usize = 0;
        let mut j: usize = 0;
        while j < self.window.height
            invariant
                j <= self.window.height,
                r@.len() == j,
                n == self.data@.len(),
                k <= n,
                forall|q: int|
                    0 <= q < j ==> (#[trigger] r@[q])@ == text_rows(
                        self.data@,
                        0,
                        self.window.width as int,
                        self.window.height as int,
                    )[q],
                text_rows(self.data@, k as int, self.window.width as int, (self.window.height
                    - j) as int) == text_rows(
                    self.data@,
                    0,
                    self.window.width as int,
                    self.window.height as int,
                ).skip(j as int),
            decreases self.window.height - j,
        {
            let (row, k2) = text_row_exec(&self.data, k, self.window.width, n);
            proof {
                let w = self.window.width as int;
                let h = self.window.height as int;
                let whole = text_rows(self.data@, 0, w, h);
                let tail = text_rows(self.data@, k as int, w, h - j);
                let rest = text_rows(self.data@, k2 as int, w, h - j - 1);
                lemma_text_rows_len(self.data@, 0, w, h);
                lemma_text_rows_len(self.data@, k as int, w, h - j);
                lemma_text_rows_len(self.data@, k2 as int, w, h - j - 1);
                assert(tail =~= seq![text_row(self.data@, k as int, w).0] + rest);
                assert(tail[0] == text_row(self.data@, k as int, w).0);
                assert(whole.skip(j as int)[0] == whole[j as int]);
                assert(row@ == whole[j as int]);
                assert forall|i: int| 0 <= i < rest.len() implies rest[i] == whole.skip(
                    j as int + 1,
                )[i] by {
                    assert(rest[i] == tail[i + 1]);
                    assert(tail[i + 1] == whole.skip(j as int)[i + 1]);
                    assert(whole.skip(j as int)[i + 1] == whole[j as int + 1 + i]);
                    assert(whole.skip(j as int + 1)[i] == whole[j as int + 1 + i]);
                }
                assert(rest =~= whole.skip(j as int + 1));
            }
            r.push(row);
            k = k2;
            j = j + 1;
        }
        r
    }
}

/// One laid-out text row, by the same rule as `text_row`.
fn text_row_exec(data: &String, k: usize, w: usize, n: usize) -> (r: (Vec<char>, usize))
    requires
        k <= data@.len(),
        n == data@.len(),
    ensures
        r.0@ == text_row(data@, k as int, w as int).0,
        r.1 as int == text_row(data@, k as int, w as int).1,
        r.1 <= data@.len(),
        r.0@.len() == w,
    decreases w,
{
    proof {
        lemma_text_row_len(data@, k as int, w as int);
    }
    if w == 0 {
        (Vec::new(), k)
    } else if k >= n {
        (blank_row_exec(w), k)
    } else {
        let c: char = data.as_str().get_char(k);
        if c == '\n' {
            (blank_row_exec(w), k + 1)
        } else {
            let (mut rest, k2) = text_row_exec(data, k + 1, w - 1, n);
            rest.insert(0, c);
            proof {
                assert(rest@ =~= seq![data@[k as int]] + text_row(
                    data@,
                    k as int + 1,
                    w as int - 1,
                ).0);
            }
            (rest, k2)
        }
    }
}

/// A row of `w` blanks.
fn blank_row_exec(w: usize) -> (r: Vec<char>)
    ensures
        r@ =~= blank_row(w as int),
{
    let mut r: Vec<char> = Vec::new();
    let mut i: usize = 0;
    while i < w
        invariant
            i <= w,
            r@.len() == i,
            forall|p: int| 0 <= p < i ==> #[trigger] r@[p] == ' ',
        decreases w - i,
    {
        r.push(' ');
        i = i + 1;
    }
    proof {
        assert(r@ =~= blank_row(w as int));
    }
    r
}

/// There are exactly `h` laid-out rows (none for a non-positive `h`).
pub proof fn lemma_text_rows_len(data: Seq<char>, k: int, w: int, h: int)
    ensures
        text_rows(data, k, w, h).len() == (if h <= 0 {
            0int
        } else {
            h
        }),
    decreases h,
{
    if h > 0 {
        let (row, k2) = text_row(data, k, w);
        lemma_text_rows_len(data, k2, w, h - 1);
    }
}

/// Every laid-out row is exactly `w` wide.
pub proof fn lemma_text_row_len(data: Seq<char>, k: int, w: int)
    requires
        0 <= w,
    ensures
        text_row(data, k, w).0.len() == w,
    decreases w,
{
    if w > 0 && 0 <= k < data.len() && data[k] != '\n' {
        lemma_text_row_len(data, k + 1, w - 1);
    }
}

impl Window for TextWindow {
    /// Forwards to the window's own `render`, which carries the contract.
    fn render(&mut self, force: bool) -> Option<Vec<Vec<char>>> {
        TextWindow::render(self, force)
    }

    fn position(&self) -> (usize, usize) {
        (self.window.x, self.window.y)
    }
}

/// The stock text window.
pub fn text_test() -> (r: Box<TextWindow>)
    ensures
        r.window == (Canvas { width: 80, height: 12, x: 102, y: 41 }),
        r.data@ == "\n Hello, World!\n How are things?\n Let's do stuff"@,
        r.update_pending,
{
    Box::new(
        TextWindow {
            window: Canvas { width: 80, height: 12, x: 102, y: 41 },
            data: String::from_str("\n Hello, World!\n How are things?\n Let's do stuff"),
            update_pending: true,
        },
    )
}

} // verus!
