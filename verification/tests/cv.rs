use wordbomb_external::cv::{expand_region, is_your_turn, mentions_quick, turn_region, Region};
use wordbomb_external::Communication;

#[test]
fn turn_region_of_a_frame() {
    let r = turn_region(1920, 1080);
    assert_eq!(r, Region { x: 0, y: 270, width: 1620, height: 540 });
    let r = turn_region(100, 7);
    assert_eq!(r, Region { x: 0, y: 1, width: -200, height: 3 });
    let r = turn_region(0, -7);
    assert_eq!(r, Region { x: 0, y: -1, width: -300, height: -3 });
}

#[test]
fn expand_region_adds_margin() {
    let r = expand_region(Region { x: 50, y: 60, width: 70, height: 80 });
    assert_eq!(r, Region { x: 40, y: 50, width: 90, height: 100 });
}

#[test]
fn turn_banner() {
    assert!(is_your_turn("Quick! Type an English word containing:"));
    assert!(is_your_turn("QUICK"));
    assert!(!is_your_turn("Waiting for player"));
    assert!(!is_your_turn("qui ck"));
    assert!(mentions_quick("be quick"));
    assert!(!mentions_quick("QUICK"));
}

#[test]
fn communication_values() {
    let c = Communication::WordPart("ing".to_string());
    assert!(matches!(c, Communication::WordPart(ref p) if p == "ing"));
    assert!(matches!(Communication::GameStart((1, 2)), Communication::GameStart((1, 2))));
    assert!(matches!(Communication::Ignore, Communication::Ignore));
}
