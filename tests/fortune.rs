use loopy::fortune::{show_fortune, Fortune};

#[test]
fn a_fortune_is_always_available() {
    let message = show_fortune().unwrap();
    assert!(!message.is_empty());
}

#[test]
fn random_fortune_comes_from_the_table() {
    let f = Fortune::new();
    for _ in 0..20 {
        let m = f.random_fortune().unwrap();
        assert!(m.ends_with('.'));
        assert!(m.len() >= 32);
    }
}
