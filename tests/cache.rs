use stock_ledger::arch_melee::ArchMeleeModule;
use stock_ledger::cache_items::{CacheItemComponent, CacheSkin, CacheWeapon};
use stock_ledger::melee::MeleeModule;
use stock_ledger::skin::{create_key, CacheError, GetByArgs, SkinModule};
use stock_ledger::trade::PlayerTrade;

fn s(x: &str) -> String {
    x.to_string()
}

fn part(unique: &str, name: &str) -> CacheItemComponent {
    CacheItemComponent { unique_name: s(unique), name: s(name), part_of: None }
}

fn weapons() -> Vec<CacheWeapon> {
    vec![
        CacheWeapon {
            unique_name: s("/Lotus/Skana"),
            name: s("Skana"),
            components: vec![part("/Lotus/SkanaBlade", "Blade"), part("/Lotus/SkanaHilt", "Hilt")],
        },
        CacheWeapon {
            unique_name: s("/Lotus/Nikana"),
            name: s("Nikana"),
            components: vec![part("/Lotus/SkanaHilt", "Hilt"), part("/Lotus/NikanaBlade", "Blade")],
        },
    ]
}

#[test]
fn melee_parts_are_keyed_and_marked() {
    let mut m = MeleeModule::new();
    assert!(m.get_parts().is_empty());
    m.load(weapons());
    let parts = m.get_parts();
    let names: Vec<&str> = parts.iter().map(|p| p.unique_name.as_str()).collect();
    assert_eq!(names, vec!["/Lotus/SkanaBlade", "/Lotus/SkanaHilt", "/Lotus/NikanaBlade"]);
    assert_eq!(parts[0].part_of.as_deref(), Some("/Lotus/Skana"));
    assert_eq!(parts[1].part_of.as_deref(), Some("/Lotus/Nikana"));
    m.load(weapons());
    assert_eq!(m.get_parts().len(), 3);
}

#[test]
fn arch_melee_parts_stay_unmarked() {
    let mut m = ArchMeleeModule::new();
    m.load(weapons());
    let parts = m.get_parts();
    assert_eq!(parts.len(), 3);
    assert!(parts.iter().all(|p| p.part_of.is_none()));
}

#[test]
fn melee_lookup_by_name_and_unique_name() {
    let mut m = MeleeModule::new();
    m.load(weapons());
    assert_eq!(m.get_by_unique_name("/Lotus/Nikana").unwrap().name, "Nikana");
    assert!(m.get_by_unique_name("/Lotus/Other").is_none());
    assert_eq!(m.get_by_name("Skana", false).unwrap().unique_name, "/Lotus/Skana");
    assert!(m.get_by_name("SKANA", false).is_none());
    let found = m.get_by_name("SKANA", true).unwrap();
    assert_eq!(found.unique_name, "/Lotus/Skana");
    assert_eq!(found.components.len(), 2);
}

#[test]
fn arch_melee_lookup_ignores_case_on_request() {
    let mut m = ArchMeleeModule::new();
    m.load(weapons());
    assert_eq!(m.get_by_name("nIKANA", true).unwrap().unique_name, "/Lotus/Nikana");
    assert!(m.get_by_name("nIKANA", false).is_none());
    assert_eq!(m.get_by_unique_name("/Lotus/Skana").unwrap().name, "Skana");
}

fn skins() -> SkinModule {
    let mut m = SkinModule::new();
    m.load(vec![
        CacheSkin { unique_name: s("/Lotus/Skins/Day"), name: s("Day Skin") },
        CacheSkin { unique_name: s("/Lotus/Skins/Night"), name: s("Night Skin") },
    ]);
    m
}

#[test]
fn skin_lookup_with_options() {
    let m = skins();
    let by_name = GetByArgs { item_by: Some(s("name")), case_insensitive: true, remove_string: Some(s(" skin")) };
    assert_eq!(m.get_by("night", &by_name).unwrap().unwrap().unique_name, "/Lotus/Skins/Night");
    assert!(m.get_by("Night", &by_name).unwrap().is_none());
    let exact = GetByArgs { item_by: Some(s("unique_name")), case_insensitive: false, remove_string: None };
    assert_eq!(m.get_by("/Lotus/Skins/Day", &exact).unwrap().unwrap().name, "Day Skin");
    assert!(m.get_by("/lotus/skins/day", &exact).unwrap().is_none());
}

#[test]
fn skin_lookup_errors() {
    let m = skins();
    let missing = GetByArgs { item_by: None, case_insensitive: false, remove_string: None };
    assert_eq!(m.get_by("x", &missing).unwrap_err(), CacheError::MissingArgument);
    let invalid = GetByArgs { item_by: Some(s("colour")), case_insensitive: false, remove_string: None };
    assert_eq!(m.get_by("x", &invalid).unwrap_err(), CacheError::InvalidBy);
}

#[test]
fn keys_fold_case_and_strip() {
    assert_eq!(create_key("Day Skin", true, &None), "day skin");
    assert_eq!(create_key("Day Skin", false, &Some(s(" Skin"))), "Day");
    assert_eq!(create_key("Day Skin", true, &Some(s(" skin"))), "day");
}

#[test]
fn player_trade_holds_user_name() {
    let t = PlayerTrade { user_name: s("tenno") };
    assert_eq!(t.clone().user_name, "tenno");
}
