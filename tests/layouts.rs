use penrose::geometry::{InvalidSplit, Rect};
use penrose::layout::{Grid, Layout, MainAndStack, Monocle, StackPosition};
use penrose::messages::Message;
use penrose::stack::{Stack, Xid};

fn stack_of(ids: &[u32], focus: usize) -> Stack {
    Stack::new(ids.iter().map(|&i| Xid(i)).collect(), focus).unwrap()
}

fn screen() -> Rect {
    Rect::new(0, 0, 1000, 800)
}

#[test]
fn message_handling() {
    let mut l = MainAndStack::side_unboxed(1, 600, 100, false);

    l.handle_message(&Message::IncMain(2));

    assert_eq!(l.max_main(), 3);
}

#[test]
fn inc_main_saturates_at_zero() {
    let mut l = MainAndStack::side_unboxed(1, 600, 100, false);
    l.handle_message(&Message::IncMain(-5));
    assert_eq!(l.max_main, 0);
    l.handle_message(&Message::IncMain(-5));
    assert_eq!(l.max_main, 0);
}

#[test]
fn inc_main_saturates_at_the_largest_count() {
    let mut l = MainAndStack::side_unboxed(u32::MAX - 1, 600, 100, false);
    l.handle_message(&Message::IncMain(5));
    assert_eq!(l.max_main, u32::MAX);
}

#[test]
fn expand_main_clamps_at_one() {
    let mut l = MainAndStack::side_unboxed(1, 950, 100, false);
    l.handle_message(&Message::ExpandMain);
    assert_eq!(l.ratio, 1000);
}

#[test]
fn shrink_main_clamps_at_zero() {
    let mut l = MainAndStack::side_unboxed(1, 50, 100, false);
    l.handle_message(&Message::ShrinkMain);
    assert_eq!(l.ratio, 0);
    let mut l = MainAndStack::side_unboxed(1, 600, 100, false);
    l.handle_message(&Message::ShrinkMain);
    assert_eq!(l.ratio, 500);
}

#[test]
fn constructor_clamps_ratio() {
    let l = MainAndStack::bottom_unboxed(2, 1500, 100, true);
    assert_eq!(l.ratio, 1000);
    assert_eq!(l.pos, StackPosition::Bottom);
    assert!(l.mirrored);
}

#[test]
fn rotate_twice_restores_state() {
    let start = MainAndStack::side_unboxed(2, 700, 50, true);
    let mut l = start;
    l.handle_message(&Message::Rotate);
    assert_eq!(l.pos, StackPosition::Bottom);
    assert_eq!(l.max_main, 2);
    assert_eq!(l.ratio, 700);
    assert_eq!(l.ratio_step, 50);
    assert!(l.mirrored);
    l.handle_message(&Message::Rotate);
    assert_eq!(l, start);
}

#[test]
fn mirror_twice_restores_state() {
    let start = MainAndStack::default();
    let mut l = start;
    l.handle_message(&Message::Mirror);
    assert!(l.mirrored);
    l.handle_message(&Message::Mirror);
    assert_eq!(l, start);
}

#[test]
fn unknown_message_is_ignored() {
    let start = MainAndStack::bottom_unboxed(3, 250, 10, false);
    let mut l = start;
    assert!(l.handle_message(&Message::Custom("focus-next".to_string())).is_none());
    assert_eq!(l, start);

    let mut g = Layout::Grid(Grid);
    assert!(g.handle_message(&Message::ExpandMain).is_none());
    assert_eq!(g, Layout::Grid(Grid));
    let mut m = Layout::Monocle(Monocle);
    assert!(m.handle_message(&Message::Custom("anything".to_string())).is_none());
    assert_eq!(m, Layout::Monocle(Monocle));
}

#[test]
fn layout_dispatches_messages() {
    let mut l = *MainAndStack::boxed_default();
    l.handle_message(&Message::IncMain(1));
    match l {
        Layout::MainAndStack(m) => assert_eq!(m.max_main, 2),
        _ => panic!("layout changed kind"),
    }
}

#[test]
fn side_layout_scenario() {
    let mut l = MainAndStack::side_unboxed(1, 600, 100, false);
    let s = stack_of(&[1, 2, 3, 4], 0);
    let (replacement, placed) = l.layout(&s, screen());
    assert!(replacement.is_none());
    assert_eq!(
        placed,
        vec![
            (Xid(1), Rect::new(0, 0, 600, 800)),
            (Xid(2), Rect::new(600, 0, 400, 266)),
            (Xid(3), Rect::new(600, 266, 400, 266)),
            (Xid(4), Rect::new(600, 532, 400, 268)),
        ]
    );
}

#[test]
fn mirrored_side_layout_puts_main_on_the_right() {
    let mut l = *MainAndStack::side_mirrored(1, 600, 100);
    let s = stack_of(&[1, 2, 3], 1);
    let (_, placed) = l.layout(&s, screen());
    assert_eq!(
        placed,
        vec![
            (Xid(1), Rect::new(400, 0, 600, 800)),
            (Xid(2), Rect::new(0, 0, 400, 400)),
            (Xid(3), Rect::new(0, 400, 400, 400)),
        ]
    );
}

#[test]
fn bottom_layout_splits_by_height() {
    let mut l = *MainAndStack::bottom(1, 600, 100);
    let s = stack_of(&[1, 2, 3], 0);
    let (_, placed) = l.layout(&s, screen());
    assert_eq!(
        placed,
        vec![
            (Xid(1), Rect::new(0, 0, 1000, 480)),
            (Xid(2), Rect::new(0, 480, 500, 320)),
            (Xid(3), Rect::new(500, 480, 500, 320)),
        ]
    );
}

#[test]
fn top_layout_puts_main_below() {
    let mut l = *MainAndStack::top(1, 600, 100);
    let s = stack_of(&[1, 2], 0);
    let (_, placed) = l.layout(&s, screen());
    assert_eq!(
        placed,
        vec![(Xid(1), Rect::new(0, 320, 1000, 480)), (Xid(2), Rect::new(0, 0, 1000, 320))]
    );
}

#[test]
fn split_point_rounds_to_nearest() {
    let mut l = MainAndStack::side_unboxed(1, 333, 100, false);
    let s = stack_of(&[1, 2], 0);
    let (_, placed) = l.layout(&s, Rect::new(0, 0, 1001, 10));
    // 1001 * 0.333 = 333.333
    assert_eq!(placed[0], (Xid(1), Rect::new(0, 0, 333, 10)));
    let (_, placed) = l.layout(&s, Rect::new(0, 0, 1003, 10));
    // 1003 * 0.333 = 333.999
    assert_eq!(placed[0], (Xid(1), Rect::new(0, 0, 334, 10)));
}

#[test]
fn no_main_slots_gives_one_region() {
    let mut l = MainAndStack::side_unboxed(0, 600, 100, false);
    let s = stack_of(&[1, 2, 3], 0);
    let (_, placed) = l.layout(&s, screen());
    assert_eq!(
        placed,
        vec![
            (Xid(1), Rect::new(0, 0, 1000, 266)),
            (Xid(2), Rect::new(0, 266, 1000, 266)),
            (Xid(3), Rect::new(0, 532, 1000, 268)),
        ]
    );
}

#[test]
fn full_ratio_gives_one_region() {
    let mut l = *MainAndStack::bottom(1, 1000, 100);
    let s = stack_of(&[1, 2], 0);
    let (_, placed) = l.layout(&s, screen());
    assert_eq!(
        placed,
        vec![(Xid(1), Rect::new(0, 0, 500, 800)), (Xid(2), Rect::new(500, 0, 500, 800))]
    );
    let mut l = MainAndStack::side_unboxed(1, 0, 100, false);
    let (_, placed) = l.layout(&s, screen());
    assert_eq!(placed[0], (Xid(1), Rect::new(0, 0, 1000, 400)));
}

#[test]
fn fewer_clients_than_main_slots_gives_one_region() {
    let mut l = MainAndStack::side_unboxed(3, 600, 100, false);
    let s = stack_of(&[1, 2], 0);
    let (_, placed) = l.layout(&s, screen());
    assert_eq!(
        placed,
        vec![(Xid(1), Rect::new(0, 0, 1000, 400)), (Xid(2), Rect::new(0, 400, 1000, 400))]
    );
}

#[test]
fn empty_stack_places_nothing() {
    let s = Stack::empty();
    for mut l in [
        *MainAndStack::boxed_default(),
        *Monocle::boxed(),
        *Grid::boxed(),
        *MainAndStack::top(2, 500, 100),
    ] {
        let (replacement, placed) = l.layout(&s, screen());
        assert!(replacement.is_none());
        assert!(placed.is_empty());
    }
}

#[test]
fn at_most_one_rect_per_client() {
    for n in 0..12u32 {
        let ids: Vec<u32> = (0..n).collect();
        let s = stack_of(&ids, 0);
        for mut l in [
            *MainAndStack::side(2, 600, 100),
            *MainAndStack::bottom(1, 300, 100),
            *Monocle::boxed(),
            *Grid::boxed(),
        ] {
            let (_, placed) = l.layout(&s, screen());
            assert!(placed.len() <= n as usize);
            for i in 0..placed.len() {
                for j in (i + 1)..placed.len() {
                    assert_ne!(placed[i].0, placed[j].0);
                }
            }
        }
    }
}

#[test]
fn monocle_places_focused_client_only() {
    let mut l = Monocle;
    let s = stack_of(&[7, 8, 9], 1);
    let (replacement, placed) = l.layout(&s, screen());
    assert!(replacement.is_none());
    assert_eq!(placed, vec![(Xid(8), screen())]);
}

#[test]
fn grid_dimensions() {
    assert_eq!(Grid::dimensions(4), (2, 2));
    assert_eq!(Grid::dimensions(5), (3, 2));
    assert_eq!(Grid::dimensions(1), (1, 1));
    assert_eq!(Grid::dimensions(0), (1, 0));
    assert_eq!(Grid::dimensions(7), (3, 3));
    assert_eq!(Grid::dimensions(12), (4, 3));
}

#[test]
fn grid_of_four_is_two_by_two() {
    let mut l = Grid;
    let s = stack_of(&[1, 2, 3, 4], 0);
    let (_, placed) = l.layout(&s, screen());
    assert_eq!(
        placed,
        vec![
            (Xid(1), Rect::new(0, 0, 500, 400)),
            (Xid(2), Rect::new(500, 0, 500, 400)),
            (Xid(3), Rect::new(0, 400, 500, 400)),
            (Xid(4), Rect::new(500, 400, 500, 400)),
        ]
    );
}

#[test]
fn grid_of_five_leaves_one_cell_unused() {
    let mut l = Grid;
    let s = stack_of(&[1, 2, 3, 4, 5], 0);
    let (_, placed) = l.layout(&s, Rect::new(0, 0, 900, 800));
    assert_eq!(
        placed,
        vec![
            (Xid(1), Rect::new(0, 0, 300, 400)),
            (Xid(2), Rect::new(300, 0, 300, 400)),
            (Xid(3), Rect::new(600, 0, 300, 400)),
            (Xid(4), Rect::new(0, 400, 300, 400)),
            (Xid(5), Rect::new(300, 400, 300, 400)),
        ]
    );
}

#[test]
fn grid_of_one_fills_the_screen() {
    let mut l = Grid;
    let s = stack_of(&[1], 0);
    let (_, placed) = l.layout(&s, screen());
    assert_eq!(placed, vec![(Xid(1), screen())]);
}

#[test]
fn rows_and_columns_cover_the_rect() {
    let r = Rect::new(10, 20, 100, 50);
    assert_eq!(
        r.as_rows(3),
        vec![Rect::new(10, 20, 100, 16), Rect::new(10, 36, 100, 16), Rect::new(10, 52, 100, 18)]
    );
    assert_eq!(
        r.as_columns(3),
        vec![Rect::new(10, 20, 33, 50), Rect::new(43, 20, 33, 50), Rect::new(76, 20, 34, 50)]
    );
    assert!(r.as_rows(0).is_empty());
    assert!(r.as_columns(0).is_empty());
}

#[test]
fn split_at_offsets() {
    let r = Rect::new(10, 20, 100, 50);
    assert_eq!(
        r.split_at_width(30),
        Ok((Rect::new(10, 20, 30, 50), Rect::new(40, 20, 70, 50)))
    );
    assert_eq!(
        r.split_at_height(50),
        Ok((Rect::new(10, 20, 100, 50), Rect::new(10, 70, 100, 0)))
    );
    assert_eq!(r.split_at_width(101), Err(InvalidSplit { offset: 101, extent: 100 }));
    assert_eq!(r.split_at_height(51), Err(InvalidSplit { offset: 51, extent: 50 }));
}

#[test]
fn names_follow_axis_and_mirroring() {
    assert_eq!(MainAndStack::side(1, 600, 100).name(), "Side");
    assert_eq!(MainAndStack::side_mirrored(1, 600, 100).name(), "Mirror");
    assert_eq!(MainAndStack::bottom(1, 600, 100).name(), "Bottom");
    assert_eq!(MainAndStack::top(1, 600, 100).name(), "Top");
    assert_eq!(Monocle::boxed().name(), "Mono");
    assert_eq!(Grid::boxed().name(), "Grid");
    let mut l = MainAndStack::default();
    l.handle_message(&Message::Rotate);
    assert_eq!(l.name(), "Bottom");
}

#[test]
fn boxed_clone_is_independent() {
    let mut l = MainAndStack::default();
    let copy = l.boxed_clone();
    l.handle_message(&Message::IncMain(4));
    assert_eq!(*copy, Layout::MainAndStack(MainAndStack::default()));
    assert_eq!(*Grid.boxed_clone(), Layout::Grid(Grid));
    assert_eq!(*Monocle.boxed_clone(), Layout::Monocle(Monocle));
    let layout = Layout::MainAndStack(l);
    assert_eq!(*layout.boxed_clone(), layout);
}

#[test]
fn stack_rejects_focus_outside_it() {
    assert!(Stack::new(vec![Xid(1), Xid(2)], 2).is_none());
    let s = Stack::new(vec![Xid(1), Xid(2)], 1).unwrap();
    assert_eq!(s.focused(), Some(Xid(2)));
    assert_eq!(s.len(), 2);
    assert_eq!(Stack::empty().focused(), None);
}
