//! The built-in layouts and the closed set of layouts that a caller holds.
use vstd::prelude::*;
use crate::geometry::Rect;
use crate::messages::Message;
use crate::stack::{Stack, Xid};
use vstd::pervasive::unreached;

verus! {

/// A ratio of `RATIO_ONE` gives the main area the whole screen: ratios and
/// their steps are counted in thousandths.
pub const RATIO_ONE: u32 = 1000;

/// Which way the main and secondary areas of a [MainAndStack] are laid out.
#[derive(Debug, Clone, Copy, PartialEq, Eq, Structural)]
pub enum StackPosition {
    /// Main area and secondary area side by side.
    Side,
    /// Main area and secondary area one above the other.
    Bottom,
}

/// A layout with a main area for the first `max_main` clients and a
/// secondary area for the rest.
///
/// `ratio` is the main area's share of the screen in thousandths, kept within
/// `0..=RATIO_ONE`; `ratio_step` is how far one expand or shrink moves it.
#[derive(Debug, Clone, Copy, PartialEq, Eq, Structural)]
pub struct MainAndStack {
    pub pos: StackPosition,
    pub max_main: u32,
    pub ratio: u32,
    pub ratio_step: u32,
    pub mirrored: bool,
}

/// `v` held within `lo..=hi`.
pub open spec fn clamp(v: int, lo: int, hi: int) -> int {
    if v < lo {
        lo
    } else if v > hi {
        hi
    } else {
        v
    }
}

/// Each client paired with the cell at its position, for as many positions
/// as both have.
pub open spec fn zip_cells(clients: Seq<Xid>, cells: Seq<Rect>) -> Seq<(Xid, Rect)> {
    Seq::new(
        if clients.len() <= cells.len() {
            clients.len()
        } else {
            cells.len()
        },
        |i: int| (clients[i], cells[i]),
    )
}

/// Pairs each client with the cell at its position.
fn assign(clients: &Vec<Xid>, cells: &Vec<Rect>) -> (r: Vec<(Xid, Rect)>)
    ensures
        r@ == zip_cells(clients@, cells@),
{
    let mut r: Vec<(Xid, Rect)> = Vec::new();
    let mut i: usize = 0;
    while i < clients.len() && i < cells.len()
        invariant
            i <= clients@.len(),
            i <= cells@.len(),
            r@.len() == i,
            forall|j: int| 0 <= j < i ==> r@[j] == (clients@[j], cells@[j]),
        decreases clients@.len() - i,
    {
        r.push((clients[i], cells[i]));
        i = i + 1;
    }
    assert(r@ =~= zip_cells(clients@, cells@));
    r
}

/// Each row of a well-formed rectangle is well formed.
proof fn lemma_rows_wf(r: Rect, n: nat, k: int)
    requires
        r.wf(),
        0 <= k < n,
    ensures
        r.rows(n)[k].wf(),
{
    crate::geometry::lemma_band_fits(r.h, n, k);
}

/// `(d * f + RATIO_ONE / 2) / RATIO_ONE` is at most `d` when `f` is at most
/// `RATIO_ONE`.
proof fn lemma_scaled_within(d: u32, f: int)
    requires
        0 <= f <= RATIO_ONE,
    ensures
        0 <= (d * f + 500) / 1000 <= d,
        d * f + 500 <= u64::MAX,
{
    assert(0 <= d * f <= d * 1000) by (nonlinear_arith)
        requires
            0 <= f <= 1000,
            0 <= d,
    ;
    assert((d * f + 500) / 1000 <= (d * 1000 + 500) / 1000) by {
        vstd::arithmetic::div_mod::lemma_div_is_ordered(d * f + 500, d * 1000 + 500, 1000);
    }
    assert((d * 1000 + 500) / 1000 == d) by {
        vstd::arithmetic::div_mod::lemma_fundamental_div_mod_converse(
            d * 1000 + 500,
            1000,
            d as int,
            500,
        );
    }
}

impl MainAndStack {
    /// The ratio lies within `0..=RATIO_ONE`.
    pub open spec fn wf(self) -> bool {
        self.ratio <= RATIO_ONE
    }

    /// With `n` clients there is no second area: all share one.
    pub open spec fn single_stack(self, n: nat) -> bool {
        n <= self.max_main || self.max_main == 0 || self.ratio == 0 || self.ratio >= RATIO_ONE
    }

    /// The share, in thousandths, of the part of the screen nearest its origin.
    pub open spec fn near_share(self) -> int {
        if self.mirrored {
            RATIO_ONE - self.ratio
        } else {
            self.ratio as int
        }
    }

    /// Where an extent `d` is cut: `d` times the near share, rounded to the
    /// nearest pixel.
    pub open spec fn split_point(self, d: u32) -> u32 {
        ((d * self.near_share() + RATIO_ONE / 2) / RATIO_ONE as int) as u32
    }

    /// `n` equal cells of `r`, as rows beside a side split and as columns
    /// beside a stacked one.
    pub open spec fn cells_along(self, r: Rect, n: nat) -> Seq<Rect> {
        match self.pos {
            StackPosition::Side => r.rows(n),
            StackPosition::Bottom => r.columns(n),
        }
    }

    /// The main area and the secondary area of `r`.
    pub open spec fn areas(self, r: Rect) -> (Rect, Rect) {
        let (near, far) = match self.pos {
            StackPosition::Side => r.width_parts(self.split_point(r.w)),
            StackPosition::Bottom => r.height_parts(self.split_point(r.h)),
        };
        if self.mirrored {
            (far, near)
        } else {
            (near, far)
        }
    }

    /// The cells given to `n` clients in `r`, main clients' cells first.
    pub open spec fn cells(self, r: Rect, n: nat) -> Seq<Rect> {
        if self.single_stack(n) {
            self.cells_along(r, n)
        } else {
            self.cells_along(self.areas(r).0, self.max_main as nat) + self.cells_along(
                self.areas(r).1,
                (n - self.max_main) as nat,
            )
        }
    }

    /// Where each client of `clients` is placed in `r`.
    pub open spec fn placement(self, clients: Seq<Xid>, r: Rect) -> Seq<(Xid, Rect)> {
        zip_cells(clients, self.cells(r, clients.len()))
    }

    /// The state after handling `m`.
    pub open spec fn handled(self, m: Message) -> MainAndStack {
        match m {
            Message::ExpandMain => MainAndStack {
                ratio: clamp(self.ratio + self.ratio_step, 0, RATIO_ONE as int) as u32,
                ..self
            },
            Message::ShrinkMain => MainAndStack {
                ratio: clamp(self.ratio - self.ratio_step, 0, RATIO_ONE as int) as u32,
                ..self
            },
            Message::IncMain(d) => MainAndStack {
                max_main: clamp(self.max_main + d, 0, u32::MAX as int) as u32,
                ..self
            },
            Message::Mirror => MainAndStack { mirrored: !self.mirrored, ..self },
            Message::Rotate => MainAndStack {
                pos: match self.pos {
                    StackPosition::Side => StackPosition::Bottom,
                    StackPosition::Bottom => StackPosition::Side,
                },
                ..self
            },
            Message::Custom(_) => self,
        }
    }

    /// The side-by-side layout built from these settings.
    pub open spec fn side_unboxed_spec(max_main: u32, ratio: u32, ratio_step: u32, mirrored: bool) -> MainAndStack {
        MainAndStack {
            pos: StackPosition::Side,
            max_main,
            ratio: clamp(ratio as int, 0, RATIO_ONE as int) as u32,
            ratio_step,
            mirrored,
        }
    }

    /// The stacked layout built from these settings.
    pub open spec fn bottom_unboxed_spec(max_main: u32, ratio: u32, ratio_step: u32, mirrored: bool) -> MainAndStack {
        MainAndStack {
            pos: StackPosition::Bottom,
            max_main,
            ratio: clamp(ratio as int, 0, RATIO_ONE as int) as u32,
            ratio_step,
            mirrored,
        }
    }

    /// A layout with the main area beside the secondary one; a `ratio` above
    /// `RATIO_ONE` is taken as `RATIO_ONE`.
    pub fn side_unboxed(max_main: u32, ratio: u32, ratio_step: u32, mirrored: bool) -> (l:
        MainAndStack)
        ensures
            l == MainAndStack::side_unboxed_spec(max_main, ratio, ratio_step, mirrored),
            l.wf(),
    {
        MainAndStack {
            pos: StackPosition::Side,
            max_main,
            ratio: if ratio > RATIO_ONE { RATIO_ONE } else { ratio },
            ratio_step,
            mirrored,
        }
    }

    /// A layout with the main area above or below the secondary one; a
    /// `ratio` above `RATIO_ONE` is taken as `RATIO_ONE`.
    pub fn bottom_unboxed(max_main: u32, ratio: u32, ratio_step: u32, mirrored: bool) -> (l:
        MainAndStack)
        ensures
            l == MainAndStack::bottom_unboxed_spec(max_main, ratio, ratio_step, mirrored),
            l.wf(),
    {
        MainAndStack {
            pos: StackPosition::Bottom,
            max_main,
            ratio: if ratio > RATIO_ONE { RATIO_ONE } else { ratio },
            ratio_step,
            mirrored,
        }
    }

    fn split(&self, d: u32) -> (p: u32)
        requires
            self.ratio <= RATIO_ONE,
        ensures
            p == self.split_point(d),
            p <= d,
    {
        let share: u64 = if self.mirrored {
            (RATIO_ONE - self.ratio) as u64
        } else {
            self.ratio as u64
        };
        proof {
            lemma_scaled_within(d, share as int);
        }
        ((d as u64 * share + (RATIO_ONE / 2) as u64) / RATIO_ONE as u64) as u32
    }

    fn all_windows_in_single_stack(&self, n: u32) -> (b: bool)
        ensures
            b == self.single_stack(n as nat),
    {
        n <= self.max_main || self.max_main == 0 || self.ratio == 0 || self.ratio >= RATIO_ONE
    }

    fn layout_side(&self, s: &Stack, r: Rect) -> (p: Vec<(Xid, Rect)>)
        requires
            r.wf(),
        ensures
            p@ == (MainAndStack { pos: StackPosition::Side, ..*self }).placement(s.clients_seq(), r),
            self.single_stack(s.clients_seq().len()) ==> p@ == zip_cells(
                s.clients_seq(),
                r.rows(s.clients_seq().len()),
            ),
    {
        let n = s.len();
        if self.all_windows_in_single_stack(n) {
            let cells = r.as_rows(n);
            assign(s.clients(), &cells)
        } else {
            let split = self.split(r.w);
            match r.split_at_width(split) {
                Ok((near, far)) => {
                    let (main, rest) = if self.mirrored { (far, near) } else { (near, far) };
                    let mut cells = main.as_rows(self.max_main);
                    let mut more = rest.as_rows(n - self.max_main);
                    cells.append(&mut more);
                    assign(s.clients(), &cells)
                },
                Err(_) => unreached(),
            }
        }
    }

    fn layout_bottom(&self, s: &Stack, r: Rect) -> (p: Vec<(Xid, Rect)>)
        requires
            r.wf(),
        ensures
            p@ == (MainAndStack { pos: StackPosition::Bottom, ..*self }).placement(
                s.clients_seq(),
                r,
            ),
            self.single_stack(s.clients_seq().len()) ==> p@ == zip_cells(
                s.clients_seq(),
                r.columns(s.clients_seq().len()),
            ),
    {
        let n = s.len();
        if self.all_windows_in_single_stack(n) {
            let cells = r.as_columns(n);
            assign(s.clients(), &cells)
        } else {
            let split = self.split(r.h);
            match r.split_at_height(split) {
                Ok((near, far)) => {
                    let (main, rest) = if self.mirrored { (far, near) } else { (near, far) };
                    let mut cells = main.as_columns(self.max_main);
                    let mut more = rest.as_columns(n - self.max_main);
                    cells.append(&mut more);
                    assign(s.clients(), &cells)
                },
                Err(_) => unreached(),
            }
        }
    }

    /// Places every client of `s` in `r`. It never asks to be replaced.
    pub fn layout(&mut self, s: &Stack, r: Rect) -> (res: (Option<Layout>, Vec<(Xid, Rect)>))
        requires
            r.wf(),
        ensures
            *final(self) == *old(self),
            res.0 is None,
            res.1@ == old(self).placement(s.clients_seq(), r),
    {
        let positions = match self.pos {
            StackPosition::Side => self.layout_side(s, r),
            StackPosition::Bottom => self.layout_bottom(s, r),
        };
        (None, positions)
    }

    /// The label shown for the layout: it names where the main area is.
    pub open spec fn label(self) -> Seq<char> {
        match (self.pos, self.mirrored) {
            (StackPosition::Side, false) => "Side"@,
            (StackPosition::Side, true) => "Mirror"@,
            (StackPosition::Bottom, false) => "Bottom"@,
            (StackPosition::Bottom, true) => "Top"@,
        }
    }

    /// A human-readable name: where the main area currently is.
    pub fn name(&self) -> (s: String)
        ensures
            s@ == self.label(),
    {
        match (self.pos, self.mirrored) {
            (StackPosition::Side, false) => "Side".to_owned(),
            (StackPosition::Side, true) => "Mirror".to_owned(),
            (StackPosition::Bottom, false) => "Bottom".to_owned(),
            (StackPosition::Bottom, true) => "Top".to_owned(),
        }
    }

    /// An independent copy of the layout in its current state.
    pub fn boxed_clone(&self) -> (b: Box<Layout>)
        ensures
            *b == Layout::MainAndStack(*self),
    {
        Box::new(Layout::MainAndStack(*self))
    }

    /// The default layout, ready to be held beside others.
    pub fn boxed_default() -> (b: Box<Layout>)
        ensures
            *b == Layout::MainAndStack(
                MainAndStack {
                    pos: StackPosition::Side,
                    max_main: 1,
                    ratio: 600,
                    ratio_step: 100,
                    mirrored: false,
                },
            ),
    {
        Box::new(Layout::MainAndStack(MainAndStack::default()))
    }

    /// Main area on the left, the other clients stacked on the right.
    pub fn side(max_main: u32, ratio: u32, ratio_step: u32) -> (b: Box<Layout>)
        ensures
            *b == Layout::MainAndStack(MainAndStack::side_unboxed_spec(max_main, ratio, ratio_step, false)),
    {
        Box::new(Layout::MainAndStack(MainAndStack::side_unboxed(max_main, ratio, ratio_step, false)))
    }

    /// Main area on the right, the other clients stacked on the left.
    pub fn side_mirrored(max_main: u32, ratio: u32, ratio_step: u32) -> (b: Box<Layout>)
        ensures
            *b == Layout::MainAndStack(MainAndStack::side_unboxed_spec(max_main, ratio, ratio_step, true)),
    {
        Box::new(Layout::MainAndStack(MainAndStack::side_unboxed(max_main, ratio, ratio_step, true)))
    }

    /// Main area at the top, the other clients side by side below it.
    pub fn bottom(max_main: u32, ratio: u32, ratio_step: u32) -> (b: Box<Layout>)
        ensures
            *b == Layout::MainAndStack(MainAndStack::bottom_unboxed_spec(max_main, ratio, ratio_step, false)),
    {
        Box::new(Layout::MainAndStack(MainAndStack::bottom_unboxed(max_main, ratio, ratio_step, false)))
    }

    /// Main area at the bottom, the other clients side by side above it.
    pub fn top(max_main: u32, ratio: u32, ratio_step: u32) -> (b: Box<Layout>)
        ensures
            *b == Layout::MainAndStack(MainAndStack::bottom_unboxed_spec(max_main, ratio, ratio_step, true)),
    {
        Box::new(Layout::MainAndStack(MainAndStack::bottom_unboxed(max_main, ratio, ratio_step, true)))
    }

    /// The current number of clients in the main area.
    pub fn max_main(&self) -> (n: u32)
        ensures
            n == self.max_main,
    {
        self.max_main
    }

    /// Acts on the commands this layout knows and ignores the others. It never
    /// asks to be replaced.
    pub fn handle_message(&mut self, m: &Message) -> (r: Option<Layout>)
        ensures
            *final(self) == old(self).handled(*m),
            old(self).wf() ==> final(self).wf(),
            r is None,
    {
        match m {
            Message::ExpandMain => {
                let v: u64 = self.ratio as u64 + self.ratio_step as u64;
                self.ratio = if v > RATIO_ONE as u64 { RATIO_ONE } else { v as u32 };
            },
            Message::ShrinkMain => {
                let v: i64 = self.ratio as i64 - self.ratio_step as i64;
                self.ratio = if v < 0 {
                    0
                } else if v > RATIO_ONE as i64 {
                    RATIO_ONE
                } else {
                    v as u32
                };
            },
            Message::IncMain(d) => {
                let v: i64 = self.max_main as i64 + *d as i64;
                self.max_main = if v < 0 {
                    0
                } else if v > u32::MAX as i64 {
                    u32::MAX
                } else {
                    v as u32
                };
            },
            Message::Mirror => {
                self.mirrored = !self.mirrored;
            },
            Message::Rotate => {
                self.pos = match self.pos {
                    StackPosition::Side => StackPosition::Bottom,
                    StackPosition::Bottom => StackPosition::Side,
                };
            },
            Message::Custom(_) => {},
        }
        None
    }
}

impl Default for MainAndStack {
    /// One main client, main area at six tenths of the screen on the left,
    /// moved a tenth at a time.
    fn default() -> (l: MainAndStack)
        ensures
            l == (MainAndStack {
                pos: StackPosition::Side,
                max_main: 1,
                ratio: 600,
                ratio_step: 100,
                mirrored: false,
            }),
    {
        MainAndStack {
            pos: StackPosition::Side,
            max_main: 1,
            ratio: 600,
            ratio_step: 100,
            mirrored: false,
        }
    }
}

/// Gives the whole screen to the focused client and places no other.
#[derive(Debug, Clone, Copy, PartialEq, Eq, Structural)]
pub struct Monocle;

impl Monocle {
    /// Where each client of `s` is placed in `r`: only the focused one is.
    pub open spec fn placement(self, s: Stack, r: Rect) -> Seq<(Xid, Rect)> {
        match s.focused_client() {
            Some(f) => seq![(f, r)],
            None => Seq::empty(),
        }
    }

    /// The layout, ready to be held beside others.
    pub fn boxed() -> (b: Box<Layout>)
        ensures
            *b == Layout::Monocle(Monocle),
    {
        Box::new(Layout::Monocle(Monocle))
    }

    /// The name of the layout.
    pub fn name(&self) -> (s: String)
        ensures
            s@ == "Mono"@,
    {
        "Mono".to_owned()
    }

    /// An independent copy of the layout.
    pub fn boxed_clone(&self) -> (b: Box<Layout>)
        ensures
            *b == Layout::Monocle(Monocle),
    {
        Monocle::boxed()
    }

    /// Places the focused client of `s` over all of `r`. It never asks to be
    /// replaced.
    pub fn layout(&mut self, s: &Stack, r: Rect) -> (res: (Option<Layout>, Vec<(Xid, Rect)>))
        ensures
            *final(self) == *old(self),
            res.0 is None,
            res.1@ == old(self).placement(*s, r),
    {
        match s.focused() {
            Some(f) => (None, vec![(f, r)]),
            None => (None, Vec::new()),
        }
    }

    /// Ignores every command.
    pub fn handle_message(&mut self, _m: &Message) -> (r: Option<Layout>)
        ensures
            *final(self) == *old(self),
            r is None,
    {
        None
    }
}

/// `c` columns are the fewest whose square grid holds `n` clients.
pub open spec fn is_grid_width(n: nat, c: nat) -> bool {
    &&& c >= 1
    &&& c * c >= n
    &&& c == 1 || (c - 1) * (c - 1) < n
}

/// The fewest columns whose square grid holds `n` clients.
pub open spec fn grid_width(n: nat) -> nat {
    choose|c: nat| is_grid_width(n, c)
}

/// The rows of a grid `c` columns wide for `n` clients: one fewer than `c`
/// when that still holds them all.
pub open spec fn grid_height(n: nat, c: nat) -> nat {
    if c * (c - 1) >= n {
        (c - 1) as nat
    } else {
        c
    }
}

/// The cells of a grid, row by row, each row cut into `c` columns.
pub open spec fn grid_cells(rows: Seq<Rect>, c: nat) -> Seq<Rect>
    decreases rows.len(),
{
    if rows.len() == 0 {
        Seq::empty()
    } else {
        grid_cells(rows.drop_last(), c) + rows.last().columns(c)
    }
}

/// Only one number of columns is the fewest.
proof fn lemma_grid_width_unique(n: nat, a: nat, b: nat)
    requires
        is_grid_width(n, a),
        is_grid_width(n, b),
    ensures
        a == b,
{
    if a < b {
        assert(a * a <= (b - 1) * (b - 1)) by (nonlinear_arith)
            requires
                1 <= a <= b - 1,
        ;
    } else if b < a {
        assert(b * b <= (a - 1) * (a - 1)) by (nonlinear_arith)
            requires
                1 <= b <= a - 1,
        ;
    }
}

/// Places clients row by row in the smallest near-square grid that holds
/// them all.
#[derive(Debug, Clone, Copy, PartialEq, Eq, Structural)]
pub struct Grid;

impl Grid {
    /// Where each client of `clients` is placed in `r`.
    pub open spec fn placement(self, clients: Seq<Xid>, r: Rect) -> Seq<(Xid, Rect)> {
        let c = grid_width(clients.len());
        zip_cells(clients, grid_cells(r.rows(grid_height(clients.len(), c)), c))
    }

    /// The layout, ready to be held beside others.
    pub fn boxed() -> (b: Box<Layout>)
        ensures
            *b == Layout::Grid(Grid),
    {
        Box::new(Layout::Grid(Grid))
    }

    /// The name of the layout.
    pub fn name(&self) -> (s: String)
        ensures
            s@ == "Grid"@,
    {
        "Grid".to_owned()
    }

    /// An independent copy of the layout.
    pub fn boxed_clone(&self) -> (b: Box<Layout>)
        ensures
            *b == Layout::Grid(Grid),
    {
        Grid::boxed()
    }

    /// The columns and rows of the grid for `n` clients.
    pub fn dimensions(n: u32) -> (d: (u32, u32))
        ensures
            d.0 == grid_width(n as nat),
            d.1 == grid_height(n as nat, d.0 as nat),
    {
        let mut c: u64 = 1;
        while c * c < n as u64
            invariant
                1 <= c <= 65536,
                c * c <= 4294967296,
                c == 1 || (c - 1) * (c - 1) < n,
            decreases n - c,
        {
            assert(c < 65536 && c < n) by (nonlinear_arith)
                requires
                    1 <= c,
                    c * c < n,
                    n <= u32::MAX,
            ;
            c = c + 1;
            assert(c * c <= 4294967296) by (nonlinear_arith)
                requires
                    1 <= c <= 65536,
            ;
        }
        proof {
            assert(is_grid_width(n as nat, c as nat));
            lemma_grid_width_unique(n as nat, c as nat, grid_width(n as nat));
        }
        assert(c * (c - 1) <= c * c) by (nonlinear_arith)
            requires
                1 <= c,
        ;
        let rows = if c * (c - 1) >= n as u64 { c - 1 } else { c };
        (c as u32, rows as u32)
    }

    /// Places the clients of `s` in `r`, row by row. It never asks to be
    /// replaced.
    pub fn layout(&mut self, s: &Stack, r: Rect) -> (res: (Option<Layout>, Vec<(Xid, Rect)>))
        requires
            r.wf(),
        ensures
            *final(self) == *old(self),
            res.0 is None,
            res.1@ == old(self).placement(s.clients_seq(), r),
    {
        let (n_cols, n_rows) = Grid::dimensions(s.len());
        let rows = r.as_rows(n_rows);
        let mut cells: Vec<Rect> = Vec::new();
        let mut i: usize = 0;
        while i < rows.len()
            invariant
                i <= rows@.len(),
                r.wf(),
                rows@ == r.rows(n_rows as nat),
                cells@ == grid_cells(rows@.take(i as int), n_cols as nat),
            decreases rows@.len() - i,
        {
            proof {
                lemma_rows_wf(r, n_rows as nat, i as int);
            }
            let mut row_cells = rows[i].as_columns(n_cols);
            cells.append(&mut row_cells);
            proof {
                assert(rows@.take(i + 1).drop_last() =~= rows@.take(i as int));
            }
            i = i + 1;
        }
        assert(rows@.take(i as int) =~= rows@);
        (None, assign(s.clients(), &cells))
    }

    /// Ignores every command.
    pub fn handle_message(&mut self, _m: &Message) -> (r: Option<Layout>)
        ensures
            *final(self) == *old(self),
            r is None,
    {
        None
    }
}

/// Every layout this crate provides.
#[derive(Debug, Clone, Copy, PartialEq, Eq, Structural)]
pub enum Layout {
    MainAndStack(MainAndStack),
    Monocle(Monocle),
    Grid(Grid),
}

impl Layout {
    /// Where each client of `s` is placed in `r`.
    pub open spec fn placement(self, s: Stack, r: Rect) -> Seq<(Xid, Rect)> {
        match self {
            Layout::MainAndStack(l) => l.placement(s.clients_seq(), r),
            Layout::Monocle(l) => l.placement(s, r),
            Layout::Grid(l) => l.placement(s.clients_seq(), r),
        }
    }

    /// The layout after handling `m`.
    pub open spec fn handled(self, m: Message) -> Layout {
        match self {
            Layout::MainAndStack(l) => Layout::MainAndStack(l.handled(m)),
            _ => self,
        }
    }

    /// The label shown for the layout.
    pub open spec fn label(self) -> Seq<char> {
        match self {
            Layout::MainAndStack(l) => l.label(),
            Layout::Monocle(_) => "Mono"@,
            Layout::Grid(_) => "Grid"@,
        }
    }

    /// A human-readable name, for display and for switching between layouts.
    pub fn name(&self) -> (s: String)
        ensures
            s@ == self.label(),
    {
        match self {
            Layout::MainAndStack(l) => l.name(),
            Layout::Monocle(l) => l.name(),
            Layout::Grid(l) => l.name(),
        }
    }

    /// An independent copy of the layout in its current state.
    pub fn boxed_clone(&self) -> (b: Box<Layout>)
        ensures
            *b == *self,
    {
        Box::new(*self)
    }

    /// Places every client of `s` in `r`. No built-in layout asks to be
    /// replaced.
    pub fn layout(&mut self, s: &Stack, r: Rect) -> (res: (Option<Layout>, Vec<(Xid, Rect)>))
        requires
            r.wf(),
        ensures
            *final(self) == *old(self),
            res.0 is None,
            res.1@ == old(self).placement(*s, r),
    {
        match self {
            Layout::MainAndStack(l) => l.layout(s, r),
            Layout::Monocle(l) => l.layout(s, r),
            Layout::Grid(l) => l.layout(s, r),
        }
    }

    /// Hands `m` to the layout, which acts on it if it knows its kind. No
    /// built-in layout asks to be replaced.
    pub fn handle_message(&mut self, m: &Message) -> (r: Option<Layout>)
        ensures
            *final(self) == old(self).handled(*m),
            r is None,
    {
        match self {
            Layout::MainAndStack(l) => l.handle_message(m),
            Layout::Monocle(l) => l.handle_message(m),
            Layout::Grid(l) => l.handle_message(m),
        }
    }
}

} // verus!
