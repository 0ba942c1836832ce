use card_catalog::card::card_product::{CardProduct, CardProductInput};
use card_catalog::card::card_set::CardSet;
use card_catalog::card::card_side::{CardSide, CardSideInput, CardSideVariant};
use card_catalog::card::card_trait::Trait;
use card_catalog::card::cost::Cost;
use card_catalog::card::{Aspect, Card, CardInput};
use card_catalog::catalog::{Ctx, Query};
use card_catalog::date::Date;
use card_catalog::product::{Product, ProductInput, ProductSet, ProductType, SetInput, SetType};

fn product(code: &str, name: &str, wave: u32, sets: Vec<ProductSet>) -> Product {
    Product {
        name: String::from(name),
        release_date: Date::new(2019, 11, 1),
        product_type: ProductType::CoreSet,
        code: String::from(code),
        wave,
        sets,
    }
}

fn event_side(name: &str) -> CardSide {
    CardSide {
        name: String::from(name),
        text: None,
        flavor_text: None,
        illustrators: None,
        variant: CardSideVariant::Event {
            cost: Cost::Number(1),
            traits: vec![Trait::Attack],
            resources: vec![],
        },
    }
}

fn card_in(code: &str, aspect: Option<Aspect>) -> Card {
    Card {
        products: vec![CardProduct {
            code: String::from(code),
            positions: vec![1],
            sets: None,
        }],
        sides: vec![event_side("Swinging Web Kick")],
        aspect,
    }
}

#[test]
fn set_included_matches_name_and_type() {
    let set = ProductSet {
        name: String::from("Rhino"),
        set_type: SetType::Villain,
    };
    let mut input = SetInput::default();
    assert_eq!(true, set.included(&input));
    input.name = Some(String::from("Rhino"));
    input.set_type = Some(SetType::Villain);
    assert_eq!(true, set.included(&input));
    input.set_type = Some(SetType::Nemesis);
    assert_eq!(false, set.included(&input));
}

#[test]
fn product_sets_getter_narrows_by_name_and_type() {
    let p = product(
        "MC01en",
        "Core Set",
        1,
        vec![
            ProductSet { name: String::from("Rhino"), set_type: SetType::Villain },
            ProductSet { name: String::from("Bomb Scare"), set_type: SetType::ModularEncounter },
        ],
    );
    let all = p.sets(None, None);
    assert_eq!(2, all.len());
    let villains = p.sets(None, Some(SetType::Villain));
    assert_eq!(1, villains.len());
    assert_eq!("Rhino", villains[0].name.as_str());
    let named = p.sets(Some(String::from("Bomb Scare")), None);
    assert_eq!(1, named.len());
    let none = p.sets(Some(String::from("Absent")), None);
    assert_eq!(0, none.len());
}

#[test]
fn ctx_flattens_sets_and_looks_up_by_key() {
    let products = vec![
        product(
            "MC01en",
            "Core Set",
            1,
            vec![ProductSet { name: String::from("Rhino"), set_type: SetType::Villain }],
        ),
        product(
            "MC02en",
            "The Green Goblin",
            1,
            vec![ProductSet { name: String::from("Goblin Gimmicks"), set_type: SetType::ModularEncounter }],
        ),
    ];
    let ctx = Ctx::new(Vec::new(), products);

    assert_eq!(2, ctx.sets.len());
    assert_eq!("The Green Goblin", ctx.product("MC02en").unwrap().name.as_str());
    assert!(ctx.product("MC99en").is_none());
    assert_eq!(SetType::Villain, ctx.set("Rhino").unwrap().set_type);
    assert!(ctx.set("Absent").is_none());
}

#[test]
fn card_product_resolves_product_fields_through_the_catalog() {
    let ctx = Ctx::new(Vec::new(), vec![product("MC01en", "Core Set", 1, Vec::new())]);
    let cp = CardProduct { code: String::from("MC01en"), positions: vec![7], sets: None };
    let dangling = CardProduct { code: String::from("MC99en"), positions: vec![7], sets: None };

    assert_eq!("Core Set", cp.name(&ctx).unwrap().as_str());
    assert_eq!(Some(Date::new(2019, 11, 1)), cp.release_date(&ctx));
    assert_eq!(Some(ProductType::CoreSet), cp.product_type(&ctx));
    assert_eq!(Some(1), cp.wave(&ctx));
    assert!(dangling.name(&ctx).is_none());
    assert!(dangling.wave(&ctx).is_none());
}

#[test]
fn derived_field_filter_never_matches_dangling_reference() {
    let ctx = Ctx::new(Vec::new(), vec![product("MC01en", "Core Set", 1, Vec::new())]);
    let dangling = CardProduct { code: String::from("MC99en"), positions: vec![7], sets: None };
    let mut input = CardProductInput::default();
    input.wave = Some(1);

    assert_eq!(false, dangling.included(&input, &ctx));
}

#[test]
fn query_products_without_filter_returns_all_in_order() {
    let ctx = Ctx::new(
        Vec::new(),
        vec![
            product("MC01en", "Core Set", 1, Vec::new()),
            product("MC02en", "The Green Goblin", 1, Vec::new()),
        ],
    );
    let all = Query::products(&ctx, &None);
    assert_eq!(2, all.len());
    assert_eq!("MC01en", all[0].code.as_str());
    assert_eq!("MC02en", all[1].code.as_str());
}

#[test]
fn query_products_filters_by_scalar_fields() {
    let ctx = Ctx::new(
        Vec::new(),
        vec![
            product("MC01en", "Core Set", 1, Vec::new()),
            product("MC04en", "The Rise of Red Skull", 2, Vec::new()),
        ],
    );
    let mut by_wave = ProductInput {
        name: None,
        release_date: None,
        product_type: None,
        code: None,
        wave: Some(2),
        sets: None,
    };
    let hits = Query::products(&ctx, &Some(by_wave.clone()));
    assert_eq!(1, hits.len());
    assert_eq!("MC04en", hits[0].code.as_str());

    by_wave.wave = Some(9);
    let misses = Query::products(&ctx, &Some(by_wave));
    assert_eq!(0, misses.len());
}

#[test]
fn conflicting_code_filters_cannot_both_match() {
    let ctx = Ctx::new(Vec::new(), vec![product("MC01en", "Core Set", 1, Vec::new())]);
    let mut filter_a = ProductInput {
        name: None,
        release_date: None,
        product_type: None,
        code: Some(String::from("MC01en")),
        wave: None,
        sets: None,
    };
    let filter_b = ProductInput {
        code: Some(String::from("MC02en")),
        ..filter_a.clone()
    };
    let a_hits = Query::products(&ctx, &Some(filter_a.clone()));
    let b_hits = Query::products(&ctx, &Some(filter_b.clone()));
    assert_eq!(1, a_hits.len());
    assert_eq!(0, b_hits.len());

    // No product satisfies both pinned codes at once: the conjunction of
    // the two constraints on one filter object is unsatisfiable too.
    filter_a.code = Some(String::from("MC02en"));
    filter_a.name = Some(String::from("Core Set"));
    assert_eq!(0, Query::products(&ctx, &Some(filter_a)).len());
}

#[test]
fn query_cards_by_referenced_product_wave() {
    // A two-product catalog and one card printed in the first product:
    // filtering cards by the referenced product's wave finds it for the
    // wave it was printed in and nothing for the other.
    let products = vec![
        product("MC01en", "Core Set", 1, Vec::new()),
        product("MC02en", "The Green Goblin", 2, Vec::new()),
    ];
    let cards = vec![card_in("MC01en", Some(Aspect::Justice))];
    let ctx = Ctx::new(cards, products);

    let mut wave_one_product = CardProductInput::default();
    wave_one_product.wave = Some(1);
    let mut wave_one = CardInput::default();
    wave_one.products = Some(vec![wave_one_product]);

    let mut wave_two_product = CardProductInput::default();
    wave_two_product.wave = Some(2);
    let mut wave_two = CardInput::default();
    wave_two.products = Some(vec![wave_two_product]);

    assert_eq!(1, Query::cards(&ctx, &Some(wave_one)).len());
    assert_eq!(0, Query::cards(&ctx, &Some(wave_two)).len());
    assert_eq!(1, Query::cards(&ctx, &None).len());
}

#[test]
fn query_cards_by_aspect_and_side() {
    let products = vec![product("MC01en", "Core Set", 1, Vec::new())];
    let cards = vec![
        card_in("MC01en", Some(Aspect::Justice)),
        card_in("MC01en", None),
    ];
    let ctx = Ctx::new(cards, products);

    let mut justice = CardInput::default();
    justice.aspect = Some(Some(Aspect::Justice));
    assert_eq!(1, Query::cards(&ctx, &Some(justice)).len());

    // An explicit-null aspect matches exactly the card without one.
    let mut no_aspect = CardInput::default();
    no_aspect.aspect = Some(None);
    assert_eq!(1, Query::cards(&ctx, &Some(no_aspect)).len());

    let mut by_side_name = CardSideInput::default();
    by_side_name.name = Some(String::from("Swinging Web Kick"));
    let mut side_filter = CardInput::default();
    side_filter.sides = Some(vec![by_side_name]);
    assert_eq!(2, Query::cards(&ctx, &Some(side_filter)).len());
}

#[test]
fn nested_filters_match_existentially() {
    // A card whose single card-product lists sets SetA and SetB matches a
    // filter asking for sets [{name: SetA}, {name: NotPresent}]: at least
    // one sub-filter matches at least one sub-entity.
    let products = vec![product(
        "MC01en",
        "Core Set",
        1,
        vec![
            ProductSet { name: String::from("SetA"), set_type: SetType::Villain },
            ProductSet { name: String::from("SetB"), set_type: SetType::Nemesis },
        ],
    )];
    let mut card = card_in("MC01en", None);
    card.products[0].sets = Some(vec![
        CardSet { name: String::from("SetA"), positions: None },
        CardSet { name: String::from("SetB"), positions: None },
    ]);
    let ctx = Ctx::new(vec![card], products);

    let mut set_a = card_catalog::card::card_set::CardSetInput::default();
    set_a.name = Some(String::from("SetA"));
    let mut absent = card_catalog::card::card_set::CardSetInput::default();
    absent.name = Some(String::from("NotPresent"));
    let mut cp_filter = CardProductInput::default();
    cp_filter.sets = Some(Some(vec![set_a, absent.clone()]));
    let mut card_filter = CardInput::default();
    card_filter.products = Some(vec![cp_filter]);
    assert_eq!(1, Query::cards(&ctx, &Some(card_filter)).len());

    // With only the absent name the existential finds nothing.
    let mut cp_miss = CardProductInput::default();
    cp_miss.sets = Some(Some(vec![absent]));
    let mut miss_filter = CardInput::default();
    miss_filter.products = Some(vec![cp_miss]);
    assert_eq!(0, Query::cards(&ctx, &Some(miss_filter)).len());
}

#[test]
fn empty_filter_matches_every_card() {
    let products = vec![product("MC01en", "Core Set", 1, Vec::new())];
    let cards = vec![card_in("MC01en", Some(Aspect::Basic)), card_in("MC01en", None)];
    let ctx = Ctx::new(cards, products);

    let all = Query::cards(&ctx, &Some(CardInput::default()));
    assert_eq!(2, all.len());
}

#[test]
fn validate_accepts_a_well_referenced_catalog() {
    let products = vec![product(
        "MC01en",
        "Core Set",
        1,
        vec![ProductSet { name: String::from("Rhino"), set_type: SetType::Villain }],
    )];
    let mut card = card_in("MC01en", None);
    card.products[0].sets = Some(vec![CardSet {
        name: String::from("Rhino"),
        positions: Some(vec![1]),
    }]);
    let ctx = Ctx::new(vec![card], products);

    assert_eq!(true, ctx.validate());
}

#[test]
fn validate_rejects_a_dangling_product_code() {
    // The card references a product code absent from the product list:
    // loading must fail rather than silently dropping the reference.
    let products = vec![product("MC01en", "Core Set", 1, Vec::new())];
    let cards = vec![card_in("MC99en", None)];
    let ctx = Ctx::new(cards, products);

    assert_eq!(false, ctx.validate());
}

#[test]
fn validate_rejects_a_dangling_set_name() {
    let products = vec![product(
        "MC01en",
        "Core Set",
        1,
        vec![ProductSet { name: String::from("Rhino"), set_type: SetType::Villain }],
    )];
    let mut card = card_in("MC01en", None);
    card.products[0].sets = Some(vec![CardSet {
        name: String::from("Not In This Product"),
        positions: None,
    }]);
    let ctx = Ctx::new(vec![card], products);

    assert_eq!(false, ctx.validate());
}

#[test]
fn card_product_sets_getter_narrows_by_name() {
    let cp = CardProduct {
        code: String::from("MC01en"),
        positions: vec![1, 2],
        sets: Some(vec![
            CardSet { name: String::from("Rhino"), positions: Some(vec![1]) },
            CardSet { name: String::from("Bomb Scare"), positions: Some(vec![2]) },
        ]),
    };
    let all = cp.sets(None).unwrap();
    assert_eq!(2, all.len());
    let named = cp.sets(Some(String::from("Rhino"))).unwrap();
    assert_eq!(1, named.len());
    assert_eq!("Rhino", named[0].name.as_str());

    let setless = CardProduct { code: String::from("MC01en"), positions: vec![1], sets: None };
    assert!(setless.sets(None).is_none());
}

#[test]
fn card_set_type_resolves_through_the_catalog() {
    let products = vec![product(
        "MC01en",
        "Core Set",
        1,
        vec![ProductSet { name: String::from("Rhino"), set_type: SetType::Villain }],
    )];
    let ctx = Ctx::new(Vec::new(), products);
    let cs = CardSet { name: String::from("Rhino"), positions: None };
    let unknown = CardSet { name: String::from("Absent"), positions: None };

    assert_eq!(Some(&SetType::Villain), cs.set_type(&ctx));
    assert!(unknown.set_type(&ctx).is_none());
}

#[test]
fn filtered_products_keep_load_order() {
    let ctx = Ctx::new(
        Vec::new(),
        vec![
            product("MC01en", "Core Set", 1, Vec::new()),
            product("MC02en", "The Green Goblin", 2, Vec::new()),
            product("MC03en", "The Wrecking Crew", 1, Vec::new()),
        ],
    );
    let mut by_wave = ProductInput {
        name: None,
        release_date: None,
        product_type: None,
        code: None,
        wave: Some(1),
        sets: None,
    };
    by_wave.wave = Some(1);
    let hits = Query::products(&ctx, &Some(by_wave));
    assert_eq!(2, hits.len());
    assert_eq!("MC01en", hits[0].code.as_str());
    assert_eq!("MC03en", hits[1].code.as_str());
}

#[test]
fn empty_catalog_answers_empty() {
    let ctx = Ctx::default();
    assert_eq!(0, Query::products(&ctx, &None).len());
    assert_eq!(0, Query::cards(&ctx, &None).len());
    assert_eq!(true, ctx.validate());
}

#[test]
fn duplicate_codes_resolve_to_the_first_product() {
    // Duplicate codes are a load-time integrity violation in the source
    // document; the lookup itself is still deterministic and returns the
    // first product in load order.
    let ctx = Ctx::new(
        Vec::new(),
        vec![
            product("MC01en", "First Printing", 1, Vec::new()),
            product("MC01en", "Second Printing", 2, Vec::new()),
        ],
    );
    assert_eq!("First Printing", ctx.product("MC01en").unwrap().name.as_str());
}
