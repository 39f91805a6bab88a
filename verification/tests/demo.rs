use nvi_win::demo::{demo_key, random_demo_key, DEMO_ROUNDS};

#[test]
fn demo_keys_come_in_turn() {
    assert_eq!(demo_key(0), 'a');
    assert_eq!(demo_key(1), 's');
    assert_eq!(demo_key(2), 'd');
    assert_eq!(demo_key(3), 'a');
    assert_eq!(demo_key(4), 's');
    assert_eq!(demo_key(5), 'd');
    assert_eq!(demo_key(usize::MAX), ['a', 's', 'd'][usize::MAX % 3]);
    assert_eq!(DEMO_ROUNDS, 5);
}

#[test]
fn random_demo_keys_are_demo_keys() {
    let mut seen = [false; 3];
    for _ in 0..600 {
        match random_demo_key() {
            'a' => seen[0] = true,
            's' => seen[1] = true,
            'd' => seen[2] = true,
            other => panic!("{other} is no demo key"),
        }
    }
    // Six hundred draws that all miss one of three keys do not happen.
    assert_eq!(seen, [true, true, true]);
}
