use ccanvas_saver::{
    decimal, layout, violates, Cell, Event, Guard, LockChange, Paint, PolicyStore, Rect, Step,
};

fn plain_text(x: u32, y: u32, text: &str) -> Vec<Cell> {
    text.chars()
        .enumerate()
        .map(|(i, ch)| Cell { x: x + i as u32, y, ch, paint: Paint::Plain })
        .collect()
}

fn text_at(cells: &[Cell], y: u32) -> (u32, String) {
    let row: Vec<&Cell> = cells.iter().filter(|c| c.y == y).collect();
    let x = row.first().map(|c| c.x).unwrap_or(0);
    (x, row.iter().map(|c| c.ch).collect())
}

fn frame(step: &Step) -> &Vec<Cell> {
    step.frame.as_ref().expect("a redraw")
}

#[test]
fn rect_min_is_zero() {
    assert_eq!(Rect::min(), Rect { width: 0, height: 0 });
}

#[test]
fn violates_iff_narrower_or_shorter() {
    for tw in 0..4u32 {
        for th in 0..4u32 {
            for mw in 0..4u32 {
                for mh in 0..4u32 {
                    let expected = tw < mw || th < mh;
                    assert_eq!(violates(Rect::new(tw, th), Rect::new(mw, mh)), expected);
                }
            }
        }
    }
    assert!(!violates(Rect::new(u32::MAX, u32::MAX), Rect::new(u32::MAX, u32::MAX)));
    assert!(violates(Rect::new(u32::MAX, 0), Rect::new(0, 1)));
}

#[test]
fn policy_initial_load() {
    assert_eq!(PolicyStore::initial_load(None).current(), Rect::new(0, 0));
    assert_eq!(PolicyStore::initial_load(Some(Rect::new(7, 3))).current(), Rect::new(7, 3));
}

#[test]
fn policy_removal_then_absent_load_gives_zero() {
    let mut store = PolicyStore::initial_load(Some(Rect::new(100, 50)));
    store.apply_removal();
    assert_eq!(store.current(), Rect::new(0, 0));
    assert_eq!(PolicyStore::initial_load(None).current(), Rect::new(0, 0));
}

#[test]
fn policy_malformed_update_keeps_value() {
    let mut store = PolicyStore::initial_load(Some(Rect::new(100, 50)));
    store.apply_update(None);
    assert_eq!(store.current(), Rect::new(100, 50));
    store.apply_update(Some(Rect::new(3, 4)));
    assert_eq!(store.current(), Rect::new(3, 4));
}

#[test]
fn decimal_digits() {
    assert_eq!(decimal(0), vec!['0']);
    assert_eq!(decimal(9), vec!['9']);
    assert_eq!(decimal(10), vec!['1', '0']);
    assert_eq!(decimal(u32::MAX), "4294967295".chars().collect::<Vec<char>>());
}

#[test]
fn no_minimum_resize_does_nothing() {
    let (mut guard, first) = Guard::start(40, 10, None);
    assert_eq!(first.lock, LockChange::Keep);
    assert!(first.frame.is_none());
    let step = guard.handle(Event::Resized { width: 80, height: 24 });
    assert_eq!(step.lock, LockChange::Keep);
    assert!(step.frame.is_none());
    assert!(!step.claim);
    assert!(!guard.is_locked());
    assert_eq!(guard.term(), Rect::new(80, 24));
}

#[test]
fn too_small_at_startup_draws_full_message() {
    let (guard, step) = Guard::start(80, 24, Some(Rect::new(100, 50)));
    assert_eq!(step.lock, LockChange::Acquire);
    assert!(guard.is_locked());
    let cells = frame(&step);
    assert_eq!(cells.len(), 24 + 22 + 26 + 23);
    assert_eq!(text_at(cells, 9), (28, "Terminal size too small:".to_string()));
    assert_eq!(text_at(cells, 10), (29, "Width = 80 Height = 24".to_string()));
    assert_eq!(text_at(cells, 11), (0, String::new()));
    assert_eq!(text_at(cells, 12), (27, "Needed for current config:".to_string()));
    assert_eq!(text_at(cells, 13), (28, "Width = 100 Height = 50".to_string()));
    for c in cells.iter() {
        let digit_of_current = c.y == 10 && ((37..39).contains(&c.x) || (49..51).contains(&c.x));
        let expected = if digit_of_current { Paint::Short } else { Paint::Plain };
        assert_eq!(c.paint, expected, "cell at ({}, {})", c.x, c.y);
    }
}

#[test]
fn large_enough_again_releases_lock() {
    let (mut guard, _) = Guard::start(80, 24, Some(Rect::new(100, 50)));
    let step = guard.handle(Event::Resized { width: 120, height: 60 });
    assert_eq!(step.lock, LockChange::Release);
    assert!(step.frame.is_none());
    assert!(!step.claim);
    assert!(!guard.is_locked());
}

#[test]
fn no_tier_fits_clears_screen_only() {
    let (guard, step) = Guard::start(8, 3, Some(Rect::new(100, 50)));
    assert_eq!(step.lock, LockChange::Acquire);
    assert!(guard.is_locked());
    assert_eq!(frame(&step), &Vec::<Cell>::new());
}

#[test]
fn fallback_on_single_row() {
    let (_, step) = Guard::start(9, 1, Some(Rect::new(100, 50)));
    assert_eq!(frame(&step), &plain_text(0, 0, "Too small"));
}

#[test]
fn policy_removed_while_locked_releases() {
    let (mut guard, _) = Guard::start(80, 24, Some(Rect::new(100, 50)));
    let step = guard.handle(Event::PolicyRemoved);
    assert_eq!(guard.minimum(), Rect::new(0, 0));
    assert_eq!(step.lock, LockChange::Release);
    assert!(step.frame.is_none());
    assert!(!guard.is_locked());
}

#[test]
fn repeated_resize_is_idempotent() {
    let (mut guard, _) = Guard::start(120, 60, Some(Rect::new(100, 50)));
    let first = guard.handle(Event::Resized { width: 80, height: 24 });
    let second = guard.handle(Event::Resized { width: 80, height: 24 });
    assert_eq!(first.lock, LockChange::Acquire);
    assert_eq!(second.lock, LockChange::Keep);
    assert_eq!(first.frame, second.frame);
    assert!(first.claim && second.claim);
}

#[test]
fn repeated_policy_update_is_idempotent() {
    let (mut guard, _) = Guard::start(80, 24, None);
    let event = Event::PolicyUpdated { decoded: Some(Rect::new(100, 50)) };
    let first = guard.handle(event);
    let second = guard.handle(event);
    assert_eq!(first.lock, LockChange::Acquire);
    assert_eq!(second.lock, LockChange::Keep);
    assert!(first.frame.is_some());
    assert_eq!(first.frame, second.frame);
    assert!(!first.claim && !second.claim);
}

#[test]
fn malformed_update_changes_nothing() {
    let (mut guard, _) = Guard::start(80, 24, Some(Rect::new(100, 50)));
    let step = guard.handle(Event::PolicyUpdated { decoded: None });
    assert_eq!(step.lock, LockChange::Keep);
    assert!(step.frame.is_none());
    assert_eq!(guard.minimum(), Rect::new(100, 50));
    assert!(guard.is_locked());
}

#[test]
fn resize_while_locked_redraws_and_claims() {
    let (mut guard, _) = Guard::start(80, 24, Some(Rect::new(100, 50)));
    let step = guard.handle(Event::Resized { width: 90, height: 30 });
    assert_eq!(step.lock, LockChange::Keep);
    assert!(step.claim);
    assert_eq!(text_at(frame(&step), 13), (34, "Width = 90 Height = 30".to_string()));
}

#[test]
fn numbers_coloured_by_shortfall() {
    let cells = layout(Rect::new(120, 24), Rect::new(100, 50));
    let status: Vec<&Cell> = cells.iter().filter(|c| c.y == 10).collect();
    let line: String = status.iter().map(|c| c.ch).collect();
    assert_eq!(line, "Width = 120 Height = 24");
    for (i, c) in status.iter().enumerate() {
        let expected = match i {
            8..=10 => Paint::Enough,
            21..=22 => Paint::Short,
            _ => Paint::Plain,
        };
        assert_eq!(c.paint, expected);
    }
}

#[test]
fn fallback_centred_on_middle_row() {
    let cells = layout(Rect::new(20, 4), Rect::new(100, 50));
    assert_eq!(cells, plain_text(5, 1, "Too small"));
}

#[test]
fn message_exactly_as_wide_as_terminal() {
    let cells = layout(Rect::new(26, 5), Rect::new(30, 6));
    assert_eq!(text_at(&cells, 0), (1, "Terminal size too small:".to_string()));
    assert_eq!(text_at(&cells, 1), (2, "Width = 26 Height = 5".to_string()));
    assert_eq!(text_at(&cells, 3), (0, "Needed for current config:".to_string()));
    assert_eq!(text_at(&cells, 4), (2, "Width = 30 Height = 6".to_string()));
}

#[test]
fn one_column_short_of_message_falls_back() {
    let cells = layout(Rect::new(25, 5), Rect::new(30, 6));
    assert_eq!(cells, plain_text(8, 2, "Too small"));
}
