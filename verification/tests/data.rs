use wmrust::config::{
    parse_bool, parse_i32, parse_percent, read_bool, read_int, DebugConfig, DebugXml, FontsConfig, FontsXml,
    GangsConfig, GangsXml, InitialConfig, InitialXml, ItemsConfig, ItemsXmlSection,
};
use wmrust::enums::{EffectTarget, ItemType, Rarity, Skill, Stat};
use wmrust::girl::{GirlXml, TraitXml};
use wmrust::item::{
    effect_target_from_name, effect_target_to_str, item_type_from_name, item_type_to_str, parse_flag_text,
    rarity_from_name, rarity_to_str, EffectXml, ItemXml,
};
use wmrust::screen::{
    ButtonXml, ColumnXml, ListBoxXml, ScreenElement, ScreenXml, SliderXml, TextXml, WidgetDef, WindowXml,
};
use wmrust::traits::{format_traits, parse_traits, TraitDef};

#[test]
fn config_numbers() {
    assert_eq!(parse_i32("6%"), Some(6));
    assert_eq!(parse_i32("30%%"), Some(30));
    assert_eq!(parse_i32("-12"), Some(-12));
    assert_eq!(parse_i32("+7"), Some(7));
    assert_eq!(parse_i32("4000"), Some(4000));
    assert_eq!(parse_i32("2147483647"), Some(2147483647));
    assert_eq!(parse_i32("-2147483648"), Some(-2147483648));
    assert_eq!(parse_i32("2147483648"), None);
    assert_eq!(parse_i32("abc"), None);
    assert_eq!(parse_i32(""), None);
    assert_eq!(parse_i32("-"), None);
    assert_eq!(parse_i32(" 5"), None);
    assert_eq!(parse_i32("5%x"), None);
    assert_eq!(parse_percent("49%"), Some(49));
}

#[test]
fn config_flags() {
    assert_eq!(parse_bool("true"), Some(true));
    assert_eq!(parse_bool("TRUE"), Some(true));
    assert_eq!(parse_bool("1"), Some(true));
    assert_eq!(parse_bool("False"), Some(false));
    assert_eq!(parse_bool("0"), Some(false));
    assert_eq!(parse_bool("yes"), None);
    assert_eq!(read_bool(&Some("TrUe".to_string())), Some(true));
    assert_eq!(read_bool(&None), None);
    assert_eq!(read_int(&Some("12%".to_string())), Some(12));
    assert_eq!(read_int(&None), None);
}

#[test]
fn config_sections_apply() {
    let mut init = InitialConfig::default();
    init.apply(&InitialXml {
        gold: Some("5000".to_string()),
        girl_meet: Some("bad".to_string()),
        slave_house_perc: None,
        auto_use_items: Some("True".to_string()),
        torture_trait_week_mod: Some("2".to_string()),
    });
    assert_eq!(init.gold, 5000);
    assert_eq!(init.girl_meet, 30);
    assert_eq!(init.slave_house_perc, 100);
    assert!(init.auto_use_items);
    assert_eq!(init.torture_trait_week_mod, 2);

    let mut gangs = GangsConfig::default();
    gangs.apply(&GangsXml {
        max_recruit_list: Some("20".to_string()),
        start_random: None,
        start_boosted: None,
        init_member_min: Some("3".to_string()),
        init_member_max: None,
        chance_remove_unwanted: Some("50%".to_string()),
        add_new_weekly_min: None,
        add_new_weekly_max: None,
    });
    assert_eq!(gangs.max_recruit_list, 20);
    assert_eq!(gangs.start_random, 2);
    assert_eq!(gangs.init_member_min, 3);
    assert_eq!(gangs.chance_remove_unwanted, 50);
    assert_eq!(gangs.add_new_weekly_max, 3);

    let mut items = ItemsConfig::default();
    items.apply(&ItemsXmlSection {
        auto_combat_equip: Some("false".to_string()),
        rarity_color_0: None,
        rarity_color_1: Some("#111111".to_string()),
        rarity_color_2: None,
        rarity_color_3: None,
        rarity_color_4: None,
        rarity_color_5: None,
        rarity_color_6: Some("#FFFFFF".to_string()),
    });
    assert!(!items.auto_combat_equip);
    assert_eq!(items.rarity_colors[0], "#000000");
    assert_eq!(items.rarity_colors[1], "#111111");
    assert_eq!(items.rarity_colors[6], "#FFFFFF");

    let mut fonts = FontsConfig::default();
    fonts.apply(FontsXml { normal: Some("Comic.ttf".to_string()), fixed: None, antialias: Some("0".to_string()) });
    assert_eq!(fonts.normal, "Comic.ttf");
    assert_eq!(fonts.fixed, "DejaVuSansMono.ttf");
    assert!(!fonts.antialias);

    let mut debug = DebugConfig::default();
    debug.apply(&DebugXml {
        log_all: Some("1".to_string()),
        log_items: None,
        log_girls: Some("nope".to_string()),
        log_rgirls: None,
        log_fonts: None,
        log_torture: Some("true".to_string()),
    });
    assert!(debug.log_all);
    assert!(!debug.log_items);
    assert!(!debug.log_girls);
    assert!(debug.log_torture);
}

#[test]
fn traits_text_format() {
    let text = "Big Boobs\nShe has large breasts.\r\n  Strong  \n Tough \n\nno name\nLast";
    let traits = parse_traits(text);
    let got: Vec<(String, String)> = traits.iter().map(|t| (t.name.clone(), t.description.clone())).collect();
    assert_eq!(
        got,
        vec![
            ("Big Boobs".to_string(), "She has large breasts.".to_string()),
            ("Strong".to_string(), "Tough".to_string()),
        ]
    );
    assert!(parse_traits("").is_empty());
    assert!(parse_traits("OnlyName").is_empty());
}

#[test]
fn item_records_convert() {
    assert_eq!(item_type_from_name("Ring"), ItemType::Ring);
    assert_eq!(item_type_from_name("ring"), ItemType::Misc);
    assert_eq!(rarity_from_name("Shop05"), Rarity::Shop05);
    assert_eq!(rarity_from_name("???"), Rarity::Common);
    assert_eq!(effect_target_from_name("Skill"), EffectTarget::Skill);
    assert_eq!(effect_target_from_name("Stat"), EffectTarget::Stat);
    assert!(parse_flag_text("TRUE"));
    assert!(parse_flag_text("1"));
    assert!(!parse_flag_text("yes"));

    let x = ItemXml {
        name: "AIDS Cure".to_string(),
        desc: "Cures".to_string(),
        item_type: "Consumable".to_string(),
        badness: 0,
        special: String::new(),
        cost: 3500,
        rarity: "Shop25".to_string(),
        infinite: "false".to_string(),
        girl_buy_chance: 5,
        effects: vec![EffectXml { what: "Trait".to_string(), name: "AIDS".to_string(), amount: 0 }],
    };
    let item = x.into_item();
    assert_eq!(item.name, "AIDS Cure");
    assert_eq!(item.item_type, ItemType::Consumable);
    assert_eq!(item.rarity, Rarity::Shop25);
    assert!(!item.infinite);
    assert_eq!(item.cost, 3500);
    assert_eq!(item.effects.len(), 1);
    assert_eq!(item.effects[0].target, EffectTarget::Trait);
    assert_eq!(item.effects[0].name, "AIDS");
}

fn girl_record() -> GirlXml {
    GirlXml {
        name: "Hong Meiling".to_string(),
        desc: "Gatekeeper".to_string(),
        gold: 100,
        charisma: 60,
        happiness: 50,
        libido: 10,
        constitution: 70,
        intelligence: 30,
        confidence: 40,
        mana: 20,
        agility: 55,
        fame: 5,
        level: 1,
        ask_price: 30,
        house: 60,
        exp: 0,
        age: 20,
        obedience: 30,
        spirit: 60,
        beauty: 70,
        tiredness: 0,
        health: 100,
        pc_fear: 0,
        pc_love: 0,
        pc_hate: 0,
        anal: 1,
        magic: 2,
        bdsm: 3,
        normal_sex: 4,
        beastiality: 5,
        group: 6,
        lesbian: 7,
        service: 8,
        strip: 9,
        combat: 60,
        status: "Normal".to_string(),
        traits: vec![TraitXml { name: "Big Boobs".to_string() }, TraitXml { name: "Strong".to_string() }],
    }
}

#[test]
fn girl_record_converts() {
    let g = girl_record().into_girl();
    assert_eq!(g.name, "Hong Meiling");
    assert_eq!(g.realname, "Hong Meiling");
    assert_eq!(g.desc, "Gatekeeper");
    assert_eq!(g.money, 100);
    assert_eq!(g.stats[Stat::Charisma as usize], 60);
    assert_eq!(g.stats[Stat::Health as usize], 100);
    assert_eq!(g.stats[Stat::PCHate as usize], 0);
    assert_eq!(g.stats[Stat::Agility as usize], 55);
    assert_eq!(g.skills[Skill::Combat as usize], 60);
    assert_eq!(g.skills[Skill::Anal as usize], 1);
    assert_eq!(g.skills[Skill::Strip as usize], 9);
    assert_eq!(g.traits, vec!["Big Boobs".to_string(), "Strong".to_string()]);
}

#[test]
fn screen_records_convert() {
    let xml = ScreenXml {
        elements: vec![
            ScreenElement::Window(WindowXml { name: "w".to_string(), x: 1, y: 2, width: 3, height: 4, border: 1 }),
            ScreenElement::Button(ButtonXml {
                name: "ok".to_string(),
                image: "ok.png".to_string(),
                x: 10,
                y: 20,
                width: 30,
                height: 40,
                transparency: "True".to_string(),
                scale: "false".to_string(),
                disabled: Some("x".to_string()),
            }),
            ScreenElement::Text(TextXml {
                name: "t".to_string(),
                text: "Bank".to_string(),
                x: 0,
                y: 0,
                width: 5,
                height: 6,
                font_size: 12,
            }),
            ScreenElement::ListBox(ListBoxXml {
                name: "lb".to_string(),
                x: 0,
                y: 0,
                width: 100,
                height: 100,
                border: 0,
                events: "1".to_string(),
                multi: "0".to_string(),
                show_headers: "true".to_string(),
                header_div: "false".to_string(),
                header_clicks_sort: "TRUE".to_string(),
                columns: vec![ColumnXml { name: "c".to_string(), header: "Name".to_string(), offset: 4 }],
            }),
            ScreenElement::Slider(SliderXml {
                name: "s".to_string(),
                x: 0,
                y: 0,
                width: 50,
                min_value: 0,
                max_value: 10,
                value: 5,
                increment: 1,
                live_update: "1".to_string(),
                hidden: "0".to_string(),
                disabled: "no".to_string(),
            }),
        ],
    };
    let layout = xml.into_layout();
    assert_eq!(layout.widgets.len(), 5);
    match &layout.widgets[0] {
        WidgetDef::Window(w) => assert_eq!((w.x, w.y, w.width, w.height, w.border), (1, 2, 3, 4, 1)),
        _ => panic!("expected a window"),
    }
    match &layout.widgets[1] {
        WidgetDef::Button(b) => {
            assert!(b.transparency);
            assert!(!b.scale);
            assert_eq!(b.disabled, Some("x".to_string()));
            assert_eq!(b.image, "ok.png");
        }
        _ => panic!("expected a button"),
    }
    match &layout.widgets[2] {
        WidgetDef::Text(t) => assert_eq!((t.text.as_str(), t.font_size), ("Bank", 12)),
        _ => panic!("expected a text"),
    }
    match &layout.widgets[3] {
        WidgetDef::ListBox(l) => {
            assert!(l.events && !l.multi && l.show_headers && !l.header_div && l.header_clicks_sort);
            assert_eq!(l.columns.len(), 1);
            assert_eq!(l.columns[0].header, "Name");
            assert_eq!(l.columns[0].offset, 4);
        }
        _ => panic!("expected a list box"),
    }
    match &layout.widgets[4] {
        WidgetDef::Slider(s) => assert!(s.live_update && !s.hidden && !s.disabled),
        _ => panic!("expected a slider"),
    }
}

#[test]
fn enum_names_round_trip() {
    let types = [
        ItemType::Food,
        ItemType::Ring,
        ItemType::Necklace,
        ItemType::Dress,
        ItemType::Underwear,
        ItemType::Shoes,
        ItemType::Hat,
        ItemType::Helmet,
        ItemType::SmallWeapon,
        ItemType::LargeWeapon,
        ItemType::Armor,
        ItemType::Shield,
        ItemType::Consumable,
        ItemType::Makeup,
        ItemType::Misc,
    ];
    for t in types {
        assert_eq!(item_type_from_name(item_type_to_str(t)), t);
    }
    assert_eq!(item_type_to_str(ItemType::SmallWeapon), "SmallWeapon");
    let rarities = [
        Rarity::Common,
        Rarity::Shop50,
        Rarity::Shop25,
        Rarity::Shop05,
        Rarity::Catacomb15,
        Rarity::ScriptOnly,
        Rarity::Reward,
    ];
    for r in rarities {
        assert_eq!(rarity_from_name(rarity_to_str(r)), r);
    }
    assert_eq!(rarity_to_str(Rarity::Catacomb15), "Catacomb15");
    for e in [EffectTarget::Stat, EffectTarget::Skill, EffectTarget::Trait] {
        assert_eq!(effect_target_from_name(effect_target_to_str(e)), e);
    }
}

#[test]
fn traits_written_and_read_back() {
    let defs = vec![
        TraitDef { name: "Big Boobs".to_string(), description: "Large.".to_string() },
        TraitDef { name: "Meek".to_string(), description: String::new() },
    ];
    let text = format_traits(&defs);
    assert_eq!(text, "Big Boobs\nLarge.\nMeek\n\n");
    let back = parse_traits(&text);
    assert_eq!(back.len(), 2);
    assert_eq!(back[0].name, "Big Boobs");
    assert_eq!(back[0].description, "Large.");
    assert_eq!(back[1].name, "Meek");
    assert_eq!(back[1].description, "");
    assert_eq!(format_traits(&[]), "");
}
