use submodule_list::components::state::{SubmoduleInfo, SubmoduleStatus};
use submodule_list::components::submodules::{Error, SubmodulesListComponent};
use submodule_list::keys::key_list::KeysList;

fn entry(path: &str) -> SubmoduleInfo {
    SubmoduleInfo {
        path: path.to_string(),
        short_id: None,
        full_id: None,
        url: None,
        status: SubmoduleStatus::Uninitialized,
    }
}

fn entries(count: usize) -> Vec<SubmoduleInfo> {
    let mut all = Vec::new();
    for i in 0..count {
        all.push(entry(&format!("lib/{}", i)));
    }
    all
}

#[test]
fn open_shows_the_popup_and_takes_the_records() {
    let mut popup = SubmodulesListComponent::new(KeysList::default());
    assert_eq!(popup.open(Ok(entries(3))), Ok(()));
    assert!(popup.is_visible());
    assert_eq!(popup.len(), 3);
    assert_eq!(popup.selection(), 0);
}

#[test]
fn open_hands_back_the_failure_of_the_source() {
    let mut popup = SubmodulesListComponent::new(KeysList::default());
    assert_eq!(popup.open(Ok(entries(2))), Ok(()));
    popup.close();
    let failed = popup.open(Err("no repository".to_string()));
    assert_eq!(failed, Err(Error::DataSource("no repository".to_string())));
    assert!(popup.is_visible());
    assert_eq!(popup.len(), 2);
}

#[test]
fn open_refuses_too_many_records_and_keeps_the_old_ones() {
    let mut popup = SubmodulesListComponent::new(KeysList::default());
    assert_eq!(popup.open(Ok(entries(2))), Ok(()));
    assert_eq!(popup.open(Ok(entries(0x10000))), Err(Error::Conversion));
    assert!(popup.is_visible());
    assert_eq!(popup.len(), 2);
}

#[test]
fn close_keeps_the_records_and_reopening_refreshes() {
    let mut popup = SubmodulesListComponent::new(KeysList::default());
    assert_eq!(popup.open(Ok(entries(4))), Ok(()));
    popup.set_selection(3);
    popup.close();
    assert!(!popup.is_visible());
    assert_eq!(popup.len(), 4);
    assert_eq!(popup.selection(), 3);
    assert_eq!(popup.open(Ok(entries(2))), Ok(()));
    assert!(popup.is_visible());
    assert_eq!(popup.len(), 2);
    assert_eq!(popup.selection(), 1);
}

#[test]
fn show_makes_visible_without_touching_the_records() {
    let mut popup = SubmodulesListComponent::new(KeysList::default());
    popup.show();
    assert!(popup.is_visible());
    assert_eq!(popup.len(), 0);
}

#[test]
fn update_on_a_hidden_popup_changes_nothing() {
    let mut popup = SubmodulesListComponent::new(KeysList::default());
    assert_eq!(popup.update_submodules(Ok(entries(3))), Ok(()));
    assert_eq!(popup.len(), 0);
    assert_eq!(popup.update_submodules(Err("down".to_string())), Ok(()));
    assert!(!popup.is_visible());
}

#[test]
fn update_on_a_visible_popup_refreshes() {
    let mut popup = SubmodulesListComponent::new(KeysList::default());
    assert_eq!(popup.open(Ok(entries(5))), Ok(()));
    popup.set_selection(4);
    assert_eq!(popup.update_submodules(Ok(entries(3))), Ok(()));
    assert_eq!(popup.len(), 3);
    assert_eq!(popup.selection(), 2);
    let failed = popup.update_submodules(Err("down".to_string()));
    assert_eq!(failed, Err(Error::DataSource("down".to_string())));
    assert_eq!(popup.len(), 3);
    assert_eq!(popup.selection(), 2);
    assert_eq!(popup.update_submodules(Ok(entries(0x10000))), Err(Error::Conversion));
    assert_eq!(popup.len(), 3);
}
