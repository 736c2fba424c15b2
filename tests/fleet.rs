use norseline::catalog::ShipModel;
use norseline::fleet::{FleetError, Fleets};

fn model(id: &str, name: &str) -> Option<ShipModel> {
    Some(ShipModel { id: id.to_string(), name: name.to_string(), manufacturer_id: "m".to_string() })
}

#[test]
fn add_then_list_holds_the_model() {
    let mut f = Fleets::new();
    let e = f.add_entry(1, &model("cutlass", "Cutlass Black"), Some("Rusty".to_string())).unwrap();
    assert_eq!(e.model_id, "cutlass");
    assert_eq!(e.model_name, "Cutlass Black");
    assert_eq!(e.nickname.as_deref(), Some("Rusty"));
    let l = f.list_entries(1);
    assert_eq!(l.len(), 1);
    assert_eq!(l[0].model_id, "cutlass");
    assert_eq!(l[0].entry_id, e.entry_id);
    assert!(f.list_entries(2).is_empty());
}

#[test]
fn unknown_model_adds_nothing() {
    let mut f = Fleets::new();
    assert_eq!(f.add_entry(1, &None, None).unwrap_err(), FleetError::InvalidModel);
    assert!(f.list_entries(1).is_empty());
}

#[test]
fn remove_then_list_omits_entry() {
    let mut f = Fleets::new();
    let a = f.add_entry(1, &model("a", "A"), None).unwrap();
    let b = f.add_entry(1, &model("b", "B"), None).unwrap();
    assert_eq!(f.remove_entry(1, a.entry_id), Ok(()));
    let l = f.list_entries(1);
    assert_eq!(l.len(), 1);
    assert_eq!(l[0].entry_id, b.entry_id);
    assert_eq!(f.remove_entry(1, a.entry_id), Err(FleetError::NotFound));
}

#[test]
fn removing_nonexistent_or_foreign_entry_fails() {
    let mut f = Fleets::new();
    assert_eq!(f.remove_entry(1, 99), Err(FleetError::NotFound));
    let a = f.add_entry(1, &model("a", "A"), None).unwrap();
    assert_eq!(f.remove_entry(2, a.entry_id), Err(FleetError::NotFound));
    assert_eq!(f.list_entries(1).len(), 1);
}

#[test]
fn rename_sets_nickname() {
    let mut f = Fleets::new();
    let a = f.add_entry(1, &model("a", "A"), None).unwrap();
    let r = f.rename_entry(1, a.entry_id, "Swift".to_string()).unwrap();
    assert_eq!(r.nickname.as_deref(), Some("Swift"));
    assert_eq!(f.list_entries(1)[0].nickname.as_deref(), Some("Swift"));
    assert_eq!(f.rename_entry(2, a.entry_id, "X".to_string()).unwrap_err(), FleetError::NotFound);
}

#[test]
fn two_adds_grow_the_list_by_two() {
    let mut f = Fleets::new();
    f.add_entry(1, &model("a", "A"), None).unwrap();
    let before = f.list_entries(1).len();
    let x = f.add_entry(1, &model("b", "B"), None).unwrap();
    let y = f.add_entry(1, &model("c", "C"), None).unwrap();
    assert_ne!(x.entry_id, y.entry_id);
    assert_eq!(f.list_entries(1).len(), before + 2);
}

#[test]
fn removed_identifier_is_never_listed_again() {
    let mut f = Fleets::new();
    let a = f.add_entry(1, &model("a", "A"), None).unwrap();
    assert_eq!(f.remove_entry(1, a.entry_id), Ok(()));
    let b = f.add_entry(1, &model("a", "A"), None).unwrap();
    assert_ne!(b.entry_id, a.entry_id);
    assert!(f.list_entries(1).iter().all(|e| e.entry_id != a.entry_id));
}
