use night_fishing::items::{
    hue_shift_from_entity, item_hue, same_text, ItemData, ItemDataBalance, PrefabList,
    HUE_DENOMINATOR,
};

fn splitmix(bits: u64) -> u64 {
    let mut x = bits ^ 0x9e3779b97f4a7c15;
    x = x.wrapping_mul(0xbf58476d1ce4e5b9);
    x ^= x >> 27;
    x = x.wrapping_mul(0x94d049bb133111eb);
    x ^= x >> 31;
    x >> 11
}

fn data(id: &str, random: bool, path: &str) -> ItemData {
    ItemData { id: id.to_string(), random_color: random, file_path: path.to_string() }
}

#[test]
fn prefab_ids_are_snake_case() {
    assert_eq!(PrefabList::Journal.prefab_id().0, "journal");
    assert_eq!(PrefabList::CodeE.prefab_id().0, "code_e");
    assert_eq!(PrefabList::ReefEr.prefab_id().0, "reef_er");
    assert_eq!(PrefabList::HowitzPerch.prefab_id().0, "howitz_perch");
    assert_eq!(PrefabList::Target1.prefab_id().0, "target1");
    assert_eq!(PrefabList::Kai.prefab_id().0, "kai");
}

#[test]
fn prefab_ids_read_back() {
    for p in PrefabList::all() {
        assert_eq!(PrefabList::from_id(p.name()), Some(p));
    }
    assert_eq!(PrefabList::all().len(), 14);
    assert_eq!(PrefabList::from_id("shark"), None);
    assert_eq!(PrefabList::from_id("Target1"), None);
}

#[test]
fn get_by_id_finds_first_entry() {
    let balance = ItemDataBalance(vec![
        data("bit_bass", false, "fish/a.png"),
        data("kai", true, "fish/kai.png"),
        data("kai", false, "fish/kai2.png"),
    ]);
    assert_eq!(balance.get_by_id("kai").unwrap().file_path, "fish/kai.png");
    assert_eq!(balance.index_of("kai"), Some(1));
    assert!(balance.get_by_id("target1").is_none());
    assert!(ItemDataBalance(Vec::new()).get_by_id("kai").is_none());
}

#[test]
fn hue_shift_is_splitmix_top_bits() {
    for bits in [0u64, 1, 42, 0xdead_beef, u64::MAX] {
        let n = hue_shift_from_entity(bits);
        assert_eq!(n, splitmix(bits));
        assert!(n < HUE_DENOMINATOR);
    }
    assert_ne!(hue_shift_from_entity(1), hue_shift_from_entity(2));
    assert_eq!(item_hue(&data("a", false, "p"), 42), 0);
    assert_eq!(item_hue(&data("a", true, "p"), 42), splitmix(42));
}

#[test]
fn text_comparison() {
    assert!(same_text("kai", "kai"));
    assert!(!same_text("kai", "kai "));
}
