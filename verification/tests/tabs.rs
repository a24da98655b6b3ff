use game_frontend::menus::settings_menu::{
    handle_regular_button_hover, handle_tab_button_hover, handle_tab_buttons, TabSet,
};
use game_frontend::menus::ui_components::{ButtonShade, Interaction};

fn active_tabs(tabs: &TabSet) -> Vec<usize> {
    (0..tabs.len()).filter(|k| tabs.button(*k).expect("a tab").active).collect()
}

fn visible_contents(tabs: &TabSet) -> Vec<usize> {
    (0..tabs.len()).filter(|k| tabs.content(*k).expect("a tab").visible).collect()
}

#[test]
fn there_is_no_tab_set_without_tabs() {
    assert!(TabSet::new(0).is_none());
    assert!(TabSet::new(1).is_some());
}

#[test]
fn new_tab_set_selects_first_tab() {
    let tabs = TabSet::new(3).expect("three tabs");
    assert_eq!(tabs.len(), 3);
    assert_eq!(tabs.selected(), 0);
    assert_eq!(active_tabs(&tabs), vec![0]);
    assert_eq!(visible_contents(&tabs), vec![0]);
    for k in 0..3 {
        let button = tabs.button(k).expect("a tab");
        assert_eq!(button.tab_index, k);
        assert_eq!(button.shade, ButtonShade::Normal);
        assert_eq!(tabs.content(k).expect("a tab").tab_index, k);
    }
    assert!(tabs.button(3).is_none());
    assert!(tabs.content(3).is_none());
}

#[test]
fn select_tab_leaves_exactly_one_active_and_visible() {
    for count in 1..6 {
        for chosen in 0..count {
            let mut tabs = TabSet::new(count).expect("tabs");
            assert!(tabs.select_tab(chosen));
            assert_eq!(active_tabs(&tabs), vec![chosen]);
            assert_eq!(visible_contents(&tabs), vec![chosen]);
            assert_eq!(tabs.selected(), chosen);
        }
    }
}

#[test]
fn select_tab_recolours_every_button() {
    let mut tabs = TabSet::new(3).expect("three tabs");
    tabs.hover_tab(0, Interaction::Hovered);
    tabs.hover_tab(2, Interaction::Hovered);
    assert!(tabs.select_tab(1));
    assert_eq!(tabs.button(0).expect("a tab").shade, ButtonShade::Normal);
    assert_eq!(tabs.button(1).expect("a tab").shade, ButtonShade::Active);
    assert_eq!(tabs.button(2).expect("a tab").shade, ButtonShade::Normal);
}

#[test]
fn select_tab_is_idempotent() {
    let mut tabs = TabSet::new(3).expect("three tabs");
    assert!(tabs.select_tab(2));
    let once: Vec<_> = (0..3).map(|k| (tabs.button(k), tabs.content(k))).collect();
    assert!(tabs.select_tab(2));
    let twice: Vec<_> = (0..3).map(|k| (tabs.button(k), tabs.content(k))).collect();
    assert_eq!(once, twice);
}

#[test]
fn select_tab_out_of_range_changes_nothing() {
    let mut tabs = TabSet::new(3).expect("three tabs");
    assert!(tabs.select_tab(1));
    let before: Vec<_> = (0..3).map(|k| (tabs.button(k), tabs.content(k))).collect();
    assert!(!tabs.select_tab(3));
    assert!(!tabs.select_tab(usize::MAX));
    let after: Vec<_> = (0..3).map(|k| (tabs.button(k), tabs.content(k))).collect();
    assert_eq!(before, after);
    assert_eq!(tabs.selected(), 1);
}

#[test]
fn selection_stays_exclusive_over_many_events() {
    let mut tabs = TabSet::new(3).expect("three tabs");
    let mut expected = 0;
    let events = [2, 2, 0, 7, 1, 1, 3, 0, 2, 1];
    for event in events {
        if tabs.select_tab(event) {
            expected = event;
        }
        assert_eq!(active_tabs(&tabs), vec![expected]);
        assert_eq!(visible_contents(&tabs), vec![expected]);
    }
}

#[test]
fn tab_hover_uses_colours_of_the_selected_tab() {
    let mut tabs = TabSet::new(3).expect("three tabs");
    handle_tab_button_hover(Interaction::Hovered, 0, &mut tabs);
    assert_eq!(tabs.button(0).expect("a tab").shade, ButtonShade::ActiveHovered);
    handle_tab_button_hover(Interaction::Idle, 0, &mut tabs);
    assert_eq!(tabs.button(0).expect("a tab").shade, ButtonShade::Active);
    handle_tab_button_hover(Interaction::Hovered, 1, &mut tabs);
    assert_eq!(tabs.button(1).expect("a tab").shade, ButtonShade::Hovered);
    handle_tab_button_hover(Interaction::Idle, 1, &mut tabs);
    assert_eq!(tabs.button(1).expect("a tab").shade, ButtonShade::Normal);
    assert_eq!(tabs.selected(), 0);
    assert_eq!(active_tabs(&tabs), vec![0]);
}

#[test]
fn tab_hover_pressed_or_out_of_range_changes_nothing() {
    let mut tabs = TabSet::new(2).expect("two tabs");
    handle_tab_button_hover(Interaction::Hovered, 1, &mut tabs);
    let before: Vec<_> = (0..2).map(|k| tabs.button(k)).collect();
    handle_tab_button_hover(Interaction::Pressed, 1, &mut tabs);
    handle_tab_button_hover(Interaction::Hovered, 2, &mut tabs);
    let after: Vec<_> = (0..2).map(|k| tabs.button(k)).collect();
    assert_eq!(before, after);
}

#[test]
fn tab_button_selects_only_when_pressed() {
    let mut tabs = TabSet::new(3).expect("three tabs");
    handle_tab_buttons(Interaction::Hovered, 2, &mut tabs);
    handle_tab_buttons(Interaction::Idle, 2, &mut tabs);
    assert_eq!(tabs.selected(), 0);
    handle_tab_buttons(Interaction::Pressed, 2, &mut tabs);
    assert_eq!(tabs.selected(), 2);
    assert_eq!(active_tabs(&tabs), vec![2]);
    assert_eq!(visible_contents(&tabs), vec![2]);
}

#[test]
fn regular_button_hover_recolours() {
    let mut shade = ButtonShade::Normal;
    handle_regular_button_hover(Interaction::Hovered, &mut shade);
    assert_eq!(shade, ButtonShade::Hovered);
    handle_regular_button_hover(Interaction::Pressed, &mut shade);
    assert_eq!(shade, ButtonShade::Hovered);
    handle_regular_button_hover(Interaction::Idle, &mut shade);
    assert_eq!(shade, ButtonShade::Normal);
}
