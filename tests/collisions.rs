use next_butler::error::CollisionError;
use next_butler::materialize::{
    check_new_file, file_stem_exists, get_file_stem_occurrences, get_first_file_with_stem,
};

fn sibling_files(names: &[&str]) -> Vec<String> {
    names.iter().map(|s| s.to_string()).collect()
}

#[test]
fn sibling_with_other_extension_collides() {
    let s = sibling_files(&["Foo.js", "Bar.css"]);
    assert_eq!(
        check_new_file("components/Foo.ts", &s).unwrap_err(),
        CollisionError::DifferentExtension
    );
}

#[test]
fn same_file_collides() {
    let s = sibling_files(&["page.jsx"]);
    assert_eq!(
        check_new_file("app/my/page.jsx", &s).unwrap_err(),
        CollisionError::AlreadyExists
    );
    assert_eq!(
        check_new_file("app/my/page.tsx", &s).unwrap_err(),
        CollisionError::DifferentExtension
    );
}

#[test]
fn free_path_passes() {
    let s = sibling_files(&["Foo.js", "Foobar.ts"]);
    assert!(check_new_file("components/Bar.ts", &s).is_ok());
    assert!(check_new_file("components/Bar.ts", &sibling_files(&[])).is_ok());
}

#[test]
fn stem_occurrences() {
    let s = sibling_files(&["card.jsx", "card.tsx", "cards.js"]);
    assert_eq!(get_file_stem_occurrences("card", &s), sibling_files(&["card.jsx", "card.tsx"]));
    assert!(file_stem_exists("x/cards.ts", &s));
    assert!(!file_stem_exists("x/other.ts", &s));
    assert_eq!(get_first_file_with_stem("x/card", &s), Some("card.jsx".to_string()));
    assert_eq!(get_first_file_with_stem("x/none", &s), None);
}
