use wmrust::customers::{CustomerClass, CustomerGenerator, CustomerRolls};

#[test]
fn test_generate_customer() {
    let mut rng = rand::thread_rng();
    for _ in 0..100 {
        let c = CustomerGenerator::generate_customer(&mut rng);
        assert!(c.money > 0);
        for &s in &c.stats {
            assert!(s >= 20 && s <= 100);
        }
    }
}

fn base_rolls() -> CustomerRolls {
    CustomerRolls {
        group: 50,
        group_size: 1,
        female: 50,
        stats: [0, 10, 20, 30, 40, 50, 60, 70, 80, 5],
        class: 10,
        money: 100,
        official: 5,
        fetish: 7,
        preference: 2,
        female_preference: 0,
    }
}

#[test]
fn customer_from_draws() {
    let c = CustomerGenerator::customer_with_rolls(&base_rolls());
    assert_eq!(c.class, CustomerClass::Poor);
    assert_eq!(c.money, 100);
    assert!(!c.is_group);
    assert_eq!(c.group_size, 1);
    assert!(!c.is_female);
    assert!(!c.is_official);
    assert_eq!(c.fetish, 7);
    assert_eq!(c.preferred_skill, 3);
    assert_eq!(c.stats, [20, 30, 40, 50, 60, 70, 80, 90, 100, 25]);
}

#[test]
fn customer_group_female_official_rich() {
    let mut d = base_rolls();
    d.group = 3;
    d.group_size = 3;
    d.female = 14;
    d.female_preference = 1;
    d.class = 90;
    d.money = 2000;
    d.official = 0;
    let c = CustomerGenerator::customer_with_rolls(&d);
    assert!(c.is_group);
    assert_eq!(c.group_size, 3);
    assert!(c.is_female);
    assert_eq!(c.preferred_skill, 4);
    assert_eq!(c.class, CustomerClass::Rich);
    assert!(c.is_official);

    d.female_preference = 0;
    d.class = 60;
    d.money = 100;
    let c2 = CustomerGenerator::customer_with_rolls(&d);
    assert_eq!(c2.preferred_skill, 6);
    assert_eq!(c2.class, CustomerClass::Middle);
}

#[test]
fn customer_counts_default_to_zero() {
    let mut g = CustomerGenerator::new();
    assert_eq!(g.get_customers(0), 0);
    g.num_customers_per_brothel = vec![7, 9];
    assert_eq!(g.get_customers(1), 9);
    assert_eq!(g.get_customers(2), 0);
    assert_eq!(CustomerGenerator::default().get_customers(0), 0);
}
