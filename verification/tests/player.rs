use wmrust::player::Player;

#[test]
fn test_scale200_at_zero() {
    // At stat 0, adjusted=100, ratio=0.5, so value 10 → 5
    assert_eq!(Player::scale200(10, 0), 5);
}

#[test]
fn test_scale200_minimum() {
    // Even tiny values produce at least ±1
    assert_eq!(Player::scale200(1, 90), 1);
    assert_eq!(Player::scale200(-1, 90), -1);
}

#[test]
fn test_disposition_clamped() {
    let mut p = Player::default();
    for _ in 0..500 {
        p.adjust_disposition(10);
    }
    assert!(p.disposition <= 100);
    for _ in 0..500 {
        p.adjust_disposition(-10);
    }
    assert!(p.disposition >= -100);
}

#[test]
fn scale200_exact_values() {
    // (200 - 144) / 200 of -25 is exactly -7
    assert_eq!(Player::scale200(-25, 44), -7);
    assert_eq!(Player::scale200(10, -100), 10);
    assert_eq!(Player::scale200(10, -500), 10);
    assert_eq!(Player::scale200(10, 100), 1);
    assert_eq!(Player::scale200(-10, 100), -1);
    assert_eq!(Player::scale200(0, 30), 0);
    assert_eq!(Player::scale200(7, 0), 4);
    assert_eq!(Player::scale200(-7, 0), -4);
    assert_eq!(Player::scale200(i32::MIN, -100), i32::MIN);
    assert_eq!(Player::scale200(i32::MAX, -100), i32::MAX);
}

#[test]
fn adjustments_scale_and_clamp() {
    let mut p = Player::default();
    p.adjust_suspicion(10);
    assert_eq!(p.suspicion, 5);
    p.adjust_customer_fear(-40);
    assert_eq!(p.customer_fear, -20);
    p.disposition = 95;
    p.adjust_disposition(50);
    assert_eq!(p.disposition, 97);
    p.disposition = 100;
    p.adjust_disposition(50);
    assert_eq!(p.disposition, 100);
    p.disposition = -100;
    p.adjust_disposition(-50);
    assert_eq!(p.disposition, -100);
}

#[test]
fn scale200_whole_products_stay_whole() {
    assert_eq!(Player::scale200(100, 86), 7);
}
