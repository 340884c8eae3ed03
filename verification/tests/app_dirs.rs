use light_gen_subz::app_dirs::{app_dir_path, case_variant_index, folder_to_adopt, APP_DIR};

#[test]
fn the_upper_case_spelling_is_adopted() {
    let entries = vec!["some-other-app".to_string(), APP_DIR.to_uppercase()];

    assert_eq!(case_variant_index(&entries, APP_DIR), Some(1));
}

#[test]
fn the_current_spelling_is_not_a_variant_of_itself() {
    let entries = vec![APP_DIR.to_string()];

    assert_eq!(case_variant_index(&entries, APP_DIR), None);
}

#[test]
fn unrelated_neighbours_are_not_adopted() {
    let entries = vec!["some-other-app".to_string(), "Light-Gen-Subz-2".to_string()];

    assert_eq!(case_variant_index(&entries, APP_DIR), None);
    assert_eq!(app_dir_path("/home/me/.config"), "/home/me/.config/light-gen-subz");
}

#[test]
fn an_existing_folder_is_kept_as_it_is() {
    let entries = vec![APP_DIR.to_uppercase()];

    assert_eq!(folder_to_adopt(true, &entries), None);
    assert_eq!(folder_to_adopt(false, &entries), Some(0));
}
