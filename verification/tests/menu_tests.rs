use lynix_badge::menu::{MenuModel, ITEMS_PER_PAGE};

fn items5() -> Vec<String> {
    vec![
        "A".to_string(),
        "B".to_string(),
        "C".to_string(),
        "D".to_string(),
        "E".to_string(),
    ]
}

#[test]
fn items_per_page_is_four() {
    assert_eq!(ITEMS_PER_PAGE, 4);
}

#[test]
fn four_downs_reach_the_fifth_item_on_the_second_page() {
    let mut m = MenuModel::new(items5());
    for _ in 0..4 {
        m.handle_menu_program(false, true);
    }
    assert_eq!(m.selected_index, 4);
    assert_eq!(m.page_index, 1);
}

#[test]
fn ten_downs_clamp_at_the_last_item() {
    let mut m = MenuModel::new(items5());
    for _ in 0..10 {
        m.handle_menu_program(false, true);
    }
    assert_eq!(m.selected_index, 4);
    assert_eq!(m.page_index, 1);
}

#[test]
fn up_at_the_first_item_saturates() {
    let mut m = MenuModel::new(items5());
    let moved = m.handle_menu_program(true, false);
    assert!(!moved);
    assert_eq!(m.selected_index, 0);
    assert_eq!(m.page_index, 0);
}

#[test]
fn down_at_the_last_item_saturates() {
    let mut m = MenuModel::new(items5());
    for _ in 0..4 {
        m.handle_menu_program(false, true);
    }
    let moved = m.handle_menu_program(false, true);
    assert!(!moved);
    assert_eq!(m.selected_index, 4);
}

#[test]
fn page_follows_the_selection_across_the_boundary() {
    let mut m = MenuModel::new(items5());
    for _ in 0..3 {
        m.handle_menu_program(false, true);
    }
    assert_eq!(m.selected_index, 3);
    assert_eq!(m.page_index, 0);
    m.handle_menu_program(false, true);
    assert_eq!(m.selected_index, 4);
    assert_eq!(m.page_index, 1);
    m.handle_menu_program(true, false);
    assert_eq!(m.selected_index, 3);
    assert_eq!(m.page_index, 0);
}

#[test]
fn page_start_and_page_count_follow_the_page() {
    let mut m = MenuModel::new(items5());
    assert_eq!(m.page_start_index(), 0);
    assert_eq!(m.page_count(), 2);
    for _ in 0..4 {
        m.handle_menu_program(false, true);
    }
    assert_eq!(m.page_start_index(), 4);
}

#[test]
fn single_item_menu_never_moves() {
    let mut m = MenuModel::new(vec!["only".to_string()]);
    assert!(!m.handle_menu_program(true, true));
    assert_eq!(m.selected_index, 0);
    assert_eq!(m.page_index, 0);
}
