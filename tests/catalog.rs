use norseline::catalog::{name_not_after, text_starts_with, Catalog, Manufacturer, ShipModel};

fn ship(id: &str, name: &str) -> ShipModel {
    ShipModel { id: id.to_string(), name: name.to_string(), manufacturer_id: "drak".to_string() }
}

fn catalog() -> Catalog {
    Catalog::new(
        vec![ship("cutlass", "Cutlass Black"), ship("cutlass-red", "Cutlass Red"), ship("aurora", "Aurora MR")],
        vec![Manufacturer { id: "drak".to_string(), name: "Drake Interplanetary".to_string(), code: "DRAK".to_string() }],
    )
}

#[test]
fn lookup_by_identifier() {
    let c = catalog();
    assert_eq!(c.get_ship_by_identifier(&"cutlass".to_string()).unwrap().name, "Cutlass Black");
    assert!(c.get_ship_by_identifier(&"not-a-real-ship".to_string()).is_none());
    assert!(c.get_ship_by_identifier(&"Cutlass".to_string()).is_none());
}

#[test]
fn list_filters_case_insensitively() {
    let c = catalog();
    let names: Vec<String> = c.list_ship_models(&Some("CUTLASS".to_string())).into_iter().map(|s| s.name).collect();
    assert_eq!(names, vec!["Cutlass Black", "Cutlass Red"]);
    assert_eq!(c.list_ship_models(&None).len(), 3);
    assert_eq!(c.list_ship_models(&Some("ora m".to_string())).len(), 1);
    assert_eq!(c.list_ship_models(&Some("zzz".to_string())).len(), 0);
}

#[test]
fn manufacturers_are_listed() {
    let m = catalog().list_manufacturers();
    assert_eq!(m.len(), 1);
    assert_eq!(m[0].code, "DRAK");
}

#[test]
fn suggestions_are_capped_at_25_and_match() {
    let ships: Vec<ShipModel> = (0..40).map(|i| ship(&format!("id{}", i), &format!("Hull {}", i))).collect();
    let c = Catalog::new(ships, vec![]);
    let s = c.suggest(&"hULL".to_string());
    assert_eq!(s.len(), 25);
    assert_eq!(s[0].name, "Hull 0");
    assert_eq!(s[0].value, "id0");
    let names: Vec<String> = s.iter().map(|x| x.name.clone()).collect();
    assert_eq!(names[..4], ["Hull 0", "Hull 1", "Hull 10", "Hull 11"]);
    assert_eq!(names[12], "Hull 2");
    assert_eq!(names[24], "Hull 30");
    let few = c.suggest(&"ull 3".to_string());
    let names: Vec<String> = few.iter().map(|x| x.name.clone()).collect();
    assert_eq!(names, vec!["Hull 3", "Hull 30", "Hull 31", "Hull 32", "Hull 33", "Hull 34", "Hull 35", "Hull 36", "Hull 37", "Hull 38", "Hull 39"]);
    for x in few {
        assert!(x.name.to_lowercase().contains("ull 3"));
    }
}

#[test]
fn empty_query_suggests_first_models() {
    let s = catalog().suggest(&"".to_string());
    assert_eq!(s.len(), 3);
    assert_eq!(s[0].value, "aurora");
    assert_eq!(s[2].value, "cutlass-red");
}

#[test]
fn equal_relevance_orders_by_name() {
    let c = Catalog::new(vec![ship("z", "Zeta"), ship("b", "Beta")], vec![]);
    let s = c.suggest(&"eta".to_string());
    assert_eq!(s.len(), 2);
    assert_eq!(s[0].name, "Beta");
    assert_eq!(s[1].name, "Zeta");
}

#[test]
fn prefix_matches_rank_first() {
    let c = Catalog::new(vec![ship("a", "Aurora Cutter"), ship("c", "Cutlass"), ship("x", "Avenger")], vec![]);
    let s = c.suggest(&"Cut".to_string());
    let names: Vec<String> = s.iter().map(|x| x.name.clone()).collect();
    assert_eq!(names, vec!["Cutlass", "Aurora Cutter"]);
    let listed: Vec<String> = c.list_ship_models(&Some("CUT".to_string())).into_iter().map(|x| x.name).collect();
    assert_eq!(listed, vec!["Cutlass", "Aurora Cutter"]);
    let all: Vec<String> = c.list_ship_models(&None).into_iter().map(|x| x.name).collect();
    assert_eq!(all, vec!["Aurora Cutter", "Avenger", "Cutlass"]);
}

#[test]
fn ties_keep_catalog_order() {
    let c = Catalog::new(vec![ship("two", "Same"), ship("one", "Same")], vec![]);
    let s = c.suggest(&"same".to_string());
    assert_eq!(s[0].value, "two");
    assert_eq!(s[1].value, "one");
}

#[test]
fn suggestions_from_lowered_texts() {
    let c = Catalog::new(vec![ship("z", "Zeta"), ship("b", "Beta"), ship("g", "Gamma")], vec![]);
    let lows = vec!["zeta".to_string(), "beta".to_string(), "gamma".to_string()];
    let s = c.suggest_lowered(&lows, &"eta".to_string());
    let ids: Vec<String> = s.iter().map(|x| x.value.clone()).collect();
    assert_eq!(ids, vec!["b", "z"]);
    let s = c.suggest_lowered(&lows, &"ETA".to_string());
    assert!(s.is_empty());
}

#[test]
fn prefix_and_name_order_helpers() {
    assert!(text_starts_with(&"cutlass".to_string(), &"cut".to_string()));
    assert!(text_starts_with(&"cutlass".to_string(), &"".to_string()));
    assert!(!text_starts_with(&"cut".to_string(), &"cutlass".to_string()));
    assert!(!text_starts_with(&"aurora".to_string(), &"cut".to_string()));
    assert!(name_not_after(&"Beta".to_string(), &"Zeta".to_string()));
    assert!(!name_not_after(&"Zeta".to_string(), &"Beta".to_string()));
    assert!(name_not_after(&"Hull".to_string(), &"Hull 2".to_string()));
    assert!(!name_not_after(&"Hull 2".to_string(), &"Hull".to_string()));
    assert!(name_not_after(&"Same".to_string(), &"Same".to_string()));
}
