//! What holds of the layouts across all inputs and across several calls.
use vstd::prelude::*;
use crate::geometry::Rect;
use crate::layout::{
    grid_cells, grid_height, grid_width, is_grid_width, zip_cells, Grid, Layout, MainAndStack,
    StackPosition, RATIO_ONE,
};
use crate::messages::Message;
use crate::stack::{Stack, Xid};

verus! {

/// Placement returns no more assignments than the stack has clients, and
/// when the clients are distinct no client is given two rectangles.
pub proof fn lemma_at_most_one_rect_per_client(l: Layout, s: Stack, r: Rect)
    ensures
        l.placement(s, r).len() <= s.clients_seq().len(),
        s.clients_seq().no_duplicates() ==> forall|i: int, j: int|
            0 <= i < j < l.placement(s, r).len() ==> (#[trigger] l.placement(s, r)[i]).0
                != (#[trigger] l.placement(s, r)[j]).0,
{
    let c = s.clients_seq();
    match l {
        Layout::Monocle(m) => {},
        _ => {
            let p = l.placement(s, r);
            assert(forall|i: int| 0 <= i < p.len() ==> (#[trigger] p[i]).0 == c[i]);
        },
    }
}

/// Stacking a grid's rows of `c` cells gives `c` cells per row.
proof fn lemma_grid_cells_len(rows: Seq<Rect>, c: nat)
    ensures
        grid_cells(rows, c).len() == rows.len() * c,
    decreases rows.len(),
{
    if rows.len() > 0 {
        lemma_grid_cells_len(rows.drop_last(), c);
        assert((rows.len() - 1) * c + c == rows.len() * c) by (nonlinear_arith);
    }
}

/// Counting up from a width whose predecessor is too small reaches the
/// fewest columns that hold `n` clients.
proof fn lemma_grid_width_from(n: nat, c: nat)
    requires
        c >= 1,
        c == 1 || (c - 1) * (c - 1) < n,
    ensures
        exists|w: nat| is_grid_width(n, w),
    decreases n - c,
{
    if c * c >= n {
        assert(is_grid_width(n, c));
    } else {
        assert(c < n) by (nonlinear_arith)
            requires
                c >= 1,
                c * c < n,
        ;
        lemma_grid_width_from(n, c + 1);
    }
}

/// The grid for `n` clients has at least `n` cells.
proof fn lemma_grid_holds_all(n: nat, r: Rect)
    ensures
        grid_cells(r.rows(grid_height(n, grid_width(n))), grid_width(n)).len() >= n,
{
    lemma_grid_width_from(n, 1);
    let c = grid_width(n);
    assert(is_grid_width(n, c));
    lemma_grid_cells_len(r.rows(grid_height(n, c)), c);
    assert(grid_height(n, c) * c == c * grid_height(n, c)) by (nonlinear_arith);
}

/// The side-by-side and stacked layouts and the grid give every client of the
/// stack exactly one rectangle, in stacking order.
pub proof fn lemma_every_client_placed(l: Layout, s: Stack, r: Rect)
    requires
        l is MainAndStack || l is Grid,
    ensures
        l.placement(s, r).len() == s.clients_seq().len(),
        forall|i: int|
            0 <= i < s.clients_seq().len() ==> (#[trigger] l.placement(s, r)[i]).0
                == s.clients_seq()[i],
{
    let n = s.clients_seq().len();
    match l {
        Layout::MainAndStack(m) => {
            assert(m.cells(r, n).len() == n);
        },
        Layout::Grid(g) => {
            lemma_grid_holds_all(n, r);
        },
        Layout::Monocle(_) => {},
    }
}

/// With no more clients than main slots, no main slots, or a ratio that
/// leaves one area empty, all clients share one area cut evenly: rows beside
/// a side split, columns beside a stacked one.
pub proof fn lemma_single_region(l: MainAndStack, clients: Seq<Xid>, r: Rect)
    requires
        clients.len() <= l.max_main || l.max_main == 0 || l.ratio == 0 || l.ratio == RATIO_ONE,
    ensures
        l.placement(clients, r) == zip_cells(
            clients,
            match l.pos {
                StackPosition::Side => r.rows(clients.len()),
                StackPosition::Bottom => r.columns(clients.len()),
            },
        ),
{
}

/// Rotating twice restores the layout; rotating once changes the axis and
/// nothing else.
pub proof fn lemma_rotate_involution(l: Layout)
    ensures
        l.handled(Message::Rotate).handled(Message::Rotate) == l,
        l matches Layout::MainAndStack(m) ==> l.handled(Message::Rotate) == Layout::MainAndStack(
            MainAndStack { pos: l.handled(Message::Rotate)->MainAndStack_0.pos, ..m },
        ) && l.handled(Message::Rotate)->MainAndStack_0.pos != m.pos,
{
}

/// Mirroring twice restores the layout.
pub proof fn lemma_mirror_involution(l: Layout)
    ensures
        l.handled(Message::Mirror).handled(Message::Mirror) == l,
{
}

/// A command of a kind no built-in layout knows leaves any layout as it was.
pub proof fn lemma_unknown_message_ignored(l: Layout, name: String)
    ensures
        l.handled(Message::Custom(name)) == l,
{
}

} // verus!
