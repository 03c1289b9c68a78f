use carousel::navigation::{compute_skip_size, Frame, Program};

fn program(n: usize) -> Program {
    let images: Vec<String> = (0..n).map(|i| format!("/img/{}.png", i)).collect();
    Program::new(images, "/dest".to_string())
}

fn paths(names: &[&str]) -> Program {
    Program::new(names.iter().map(|s| s.to_string()).collect(), "/dest".to_string())
}

fn shown(f: &Frame) -> Option<String> {
    match f {
        Frame::Blank => None,
        Frame::Image(p) => Some(p.clone()),
    }
}

fn skip_of(n: usize) -> usize {
    let images: Vec<String> = vec![String::new(); n];
    compute_skip_size(&images)
}

#[test]
fn skip_size_examples() {
    assert_eq!(skip_of(0), 1);
    assert_eq!(skip_of(9), 1);
    assert_eq!(skip_of(10), 2);
    assert_eq!(skip_of(100), 11);
}

#[test]
fn skip_size_is_monotonic() {
    let mut prev = skip_of(0);
    for n in 1..300 {
        let s = skip_of(n);
        assert!(s >= prev && s >= 1);
        prev = s;
    }
}

#[test]
fn new_program_shows_first_image() {
    let p = program(3);
    assert_eq!(p.index(), 0);
    assert_eq!(shown(&p.render()), Some("/img/0.png".to_string()));
}

#[test]
fn render_on_empty_set_is_blank() {
    let p = program(0);
    assert!(matches!(p.render(), Frame::Blank));
}

#[test]
fn increment_steps_and_clamps() {
    let mut p = program(5);
    let f = p.increment(1);
    assert_eq!(p.index(), 1);
    assert_eq!(shown(&f), Some("/img/1.png".to_string()));
    p.increment(2);
    assert_eq!(p.index(), 3);
    p.increment(2);
    assert_eq!(p.index(), 4);
    p.increment(usize::MAX);
    assert_eq!(p.index(), 4);
}

#[test]
fn increment_on_small_sets_is_noop() {
    let mut p = program(1);
    p.increment(1);
    assert_eq!(p.index(), 0);
    let mut e = program(0);
    assert!(matches!(e.increment(3), Frame::Blank));
    assert_eq!(e.index(), 0);
}

#[test]
fn decrement_steps_and_clamps() {
    let mut p = program(5);
    p.last();
    assert_eq!(p.index(), 4);
    p.decrement(1);
    assert_eq!(p.index(), 3);
    p.decrement(2);
    assert_eq!(p.index(), 1);
    p.decrement(2);
    assert_eq!(p.index(), 0);
    p.decrement(usize::MAX);
    assert_eq!(p.index(), 0);
}

#[test]
fn navigation_never_leaves_the_set() {
    for n in 2..25usize {
        for step in 1..30usize {
            let mut p = program(n);
            for _ in 0..5 {
                p.increment(step);
                assert!(p.index() < n);
            }
            for _ in 0..5 {
                p.decrement(step);
                assert!(p.index() < n);
            }
        }
    }
}

#[test]
fn skips_move_by_skip_size() {
    let mut p = program(25);
    p.skip_forward();
    assert_eq!(p.index(), 3);
    p.skip_forward();
    assert_eq!(p.index(), 6);
    p.skip_backward();
    assert_eq!(p.index(), 3);
    p.skip_backward();
    p.skip_backward();
    assert_eq!(p.index(), 0);
}

#[test]
fn first_and_last() {
    let mut p = program(7);
    p.last();
    assert_eq!(p.index(), 6);
    p.first();
    assert_eq!(p.index(), 0);
    let mut e = program(0);
    assert!(matches!(e.last(), Frame::Blank));
    assert_eq!(e.index(), 0);
}

#[test]
fn remove_last_image_steps_back() {
    let mut p = paths(&["A", "B", "C"]);
    p.last();
    p.remove_image(2);
    assert_eq!(p.images(), &vec!["A".to_string(), "B".to_string()]);
    assert_eq!(p.index(), 1);
}

#[test]
fn remove_first_image_keeps_index() {
    let mut p = paths(&["A", "B", "C"]);
    p.remove_image(0);
    assert_eq!(p.images(), &vec!["B".to_string(), "C".to_string()]);
    assert_eq!(p.index(), 0);
}

#[test]
fn remove_middle_image_shows_successor() {
    let mut p = paths(&["A", "B", "C"]);
    p.increment(1);
    p.remove_image(1);
    assert_eq!(p.index(), 1);
    assert_eq!(shown(&p.render()), Some("C".to_string()));
}

#[test]
fn remove_only_image_leaves_index_zero() {
    let mut p = paths(&["A"]);
    p.remove_image(0);
    assert!(p.images().is_empty());
    assert_eq!(p.index(), 0);
    assert!(matches!(p.render(), Frame::Blank));
}

#[test]
fn removal_keeps_index_valid() {
    for n in 1..12usize {
        for start in 0..n {
            let mut p = program(n);
            p.increment(start);
            while !p.images().is_empty() {
                let i = p.index();
                p.remove_image(i);
                if p.images().is_empty() {
                    assert_eq!(p.index(), 0);
                } else {
                    assert!(p.index() < p.images().len());
                }
            }
        }
    }
}
