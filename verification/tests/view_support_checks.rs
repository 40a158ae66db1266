//! Law checks for runtime-assembled view children: each helper mirrors the
//! child rule the `view!` macro enforces at compile time for literal
//! children, so child lists built at runtime fail with the same law.

use pwr_ext::view_support::check_action_row_children;
use pwr_ext::view_support::check_container_children;
use pwr_ext::view_support::check_media_gallery_items;
use pwr_ext::view_support::check_section_children;
use pwr_ext::view_support::check_select_menu_options;
use pwr_ext::view_support::check_v2_root_children;
use pwr_ext::view_support::ChildRuleError;
use pwr_ext::view_support::ComponentKind;

/// A runtime-built child, by its description.
#[derive(Debug, Clone)]
struct Child(String);

fn nav_buttons(count: usize) -> Vec<Child> {
    (0..count).map(|i| Child(format!("nav:{i}"))).collect()
}

fn section_texts(count: usize) -> Vec<Child> {
    (0..count).map(|i| Child(format!("line {i}"))).collect()
}

fn thumbnail_accessory() -> Child {
    Child("attachment://hub.png".to_owned())
}

fn section_button() -> Child {
    Child("hub:open".to_owned())
}

fn select_options(count: usize) -> Vec<Child> {
    (0..count).map(|i| Child(format!("Region {i}"))).collect()
}

fn gallery_items(count: usize) -> Vec<Child> {
    (0..count).map(|i| Child(format!("attachment://img-{i}.png"))).collect()
}

fn container_texts(count: usize) -> Vec<Child> {
    (0..count).map(|i| Child(format!("cell {i}"))).collect()
}

fn container_all_kinds() -> Vec<Child> {
    vec![
        Child("summary".to_owned()),
        Child("section".to_owned()),
        Child("action_row".to_owned()),
        Child("attachment://log.txt".to_owned()),
        Child("separator".to_owned()),
        Child("media_gallery".to_owned()),
    ]
}

fn root_texts(count: usize) -> Vec<ComponentKind> {
    (0..count).map(|_| ComponentKind::TextDisplay).collect()
}

fn v2_root_all_kinds() -> Vec<ComponentKind> {
    vec![
        ComponentKind::TextDisplay,
        ComponentKind::Section,
        ComponentKind::ActionRow,
        ComponentKind::MediaGallery,
        ComponentKind::File,
        ComponentKind::Separator,
        ComponentKind::Container,
    ]
}

const NO_CHILDREN: [Child; 0] = [];

#[test]
fn action_row_allows_up_to_five_buttons() {
    check_action_row_children(&nav_buttons(5)).unwrap();
}

#[test]
fn action_row_rejects_a_sixth_button() {
    assert_eq!(
        check_action_row_children(&nav_buttons(6)).unwrap_err(),
        ChildRuleError::ActionRowTooManyButtons
    );
}

#[test]
fn action_row_rejects_an_empty_child_list() {
    assert_eq!(
        check_action_row_children(&NO_CHILDREN).unwrap_err(),
        ChildRuleError::ActionRowEmpty
    );
}

#[test]
fn section_allows_three_text_displays_with_a_thumbnail() {
    check_section_children(&section_texts(3), Some(&thumbnail_accessory())).unwrap();
}

#[test]
fn section_allows_one_text_display_with_a_button_accessory() {
    check_section_children(&section_texts(1), Some(&section_button())).unwrap();
}

#[test]
fn section_rejects_a_fourth_text_display() {
    assert_eq!(
        check_section_children(&section_texts(4), Some(&thumbnail_accessory())).unwrap_err(),
        ChildRuleError::SectionTooManyTextDisplays
    );
}

#[test]
fn section_rejects_an_empty_child_list() {
    assert_eq!(
        check_section_children(&NO_CHILDREN, Some(&thumbnail_accessory())).unwrap_err(),
        ChildRuleError::SectionEmpty
    );
}

#[test]
fn section_rejects_a_missing_accessory() {
    assert_eq!(
        check_section_children::<Child, Child>(&section_texts(1), None).unwrap_err(),
        ChildRuleError::SectionMissingAccessory
    );
}

#[test]
fn select_menu_allows_up_to_twenty_five_options() {
    check_select_menu_options(&select_options(25)).unwrap();
}

#[test]
fn select_menu_rejects_a_twenty_sixth_option() {
    assert_eq!(
        check_select_menu_options(&select_options(26)).unwrap_err(),
        ChildRuleError::SelectMenuTooManyOptions
    );
}

#[test]
fn select_menu_allows_an_empty_option_list() {
    // The macro enforces no minimum option count, so neither does this check.
    check_select_menu_options(&NO_CHILDREN).unwrap();
}

#[test]
fn media_gallery_allows_one_item() {
    check_media_gallery_items(&gallery_items(1)).unwrap();
}

#[test]
fn media_gallery_allows_ten_items() {
    check_media_gallery_items(&gallery_items(10)).unwrap();
}

#[test]
fn media_gallery_rejects_an_empty_item_list() {
    assert_eq!(
        check_media_gallery_items(&NO_CHILDREN).unwrap_err(),
        ChildRuleError::MediaGalleryEmpty
    );
}

#[test]
fn media_gallery_rejects_an_eleventh_item() {
    assert_eq!(
        check_media_gallery_items(&gallery_items(11)).unwrap_err(),
        ChildRuleError::MediaGalleryTooManyItems
    );
}

#[test]
fn container_allows_every_child_kind_up_to_forty_children() {
    let mut children = container_all_kinds();
    children.extend(container_texts(34));
    assert_eq!(children.len(), 40);
    check_container_children(&children).unwrap();
}

#[test]
fn container_rejects_a_forty_first_child() {
    let mut children = container_all_kinds();
    children.extend(container_texts(35));
    assert_eq!(
        check_container_children(&children).unwrap_err(),
        ChildRuleError::ContainerTooManyChildren
    );
}

#[test]
fn container_allows_an_empty_child_list() {
    // The macro enforces no minimum container child count, so neither does
    // this check.
    check_container_children(&NO_CHILDREN).unwrap();
}

#[test]
fn v2_root_allows_every_v2_child_kind() {
    check_v2_root_children(&v2_root_all_kinds()).unwrap();
}

#[test]
fn v2_root_allows_up_to_forty_children() {
    let mut children = v2_root_all_kinds();
    children.extend(root_texts(33));
    assert_eq!(children.len(), 40);
    check_v2_root_children(&children).unwrap();
}

#[test]
fn v2_root_rejects_a_forty_first_child() {
    let mut children = v2_root_all_kinds();
    children.extend(root_texts(34));
    assert_eq!(
        check_v2_root_children(&children).unwrap_err(),
        ChildRuleError::V2RootTooManyChildren
    );
}

#[test]
fn v2_root_rejects_an_empty_child_list() {
    assert_eq!(
        check_v2_root_children(&[]).unwrap_err(),
        ChildRuleError::V2RootEmpty
    );
}

#[test]
fn v2_root_rejects_a_modal_label_child() {
    let children = vec![ComponentKind::TextDisplay, ComponentKind::Label];
    let err = check_v2_root_children(&children).unwrap_err();
    assert!(
        err.to_string()
            .contains("`label` cannot appear inside `components_v2` — labels are modal-only")
    );
}

#[test]
fn v2_root_label_is_reported_before_the_count() {
    let mut children = root_texts(41);
    children.push(ComponentKind::Label);
    assert_eq!(
        check_v2_root_children(&children).unwrap_err(),
        ChildRuleError::V2RootModalLabel
    );
}

#[test]
fn law_texts_name_each_law() {
    assert_eq!(
        ChildRuleError::ActionRowTooManyButtons.to_string(),
        "action_row cannot contain more than 5 buttons"
    );
    assert_eq!(
        ChildRuleError::SectionMissingAccessory.law(),
        "section requires exactly one accessory (`thumbnail` or `button`)"
    );
    assert_eq!(
        ChildRuleError::V2RootEmpty.to_string(),
        "`components_v2` must contain at least one component"
    );
}
