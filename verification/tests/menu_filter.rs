use qognify::menu::{filter_categories, Category, MenuItem};
use qognify::text::has_match;

fn item(title: &str, description: &str) -> MenuItem {
    MenuItem { title: String::from(title), description: String::from(description) }
}

fn catalogue() -> Vec<Category> {
    vec![
        Category {
            name: String::from("AI"),
            is_open: true,
            items: vec![item("Linear Regression", "Visualize Linear Regression")],
        },
        Category {
            name: String::from("Quantum"),
            is_open: false,
            items: vec![item("Quantum States", "Superposition and measurement")],
        },
        Category {
            name: String::from("Hybrid"),
            is_open: true,
            items: vec![
                item("Quantum Neural Networks", "QNN architectures"),
                item("Variational Quantum Eigensolver", "VQE optimization"),
                item("Quantum Approximate Optimization", "QAOA algorithm"),
                item("Quantum Feature Maps", "Classical to quantum encoding"),
                item("Hybrid Inference", "Classical-Quantum pipelines"),
            ],
        },
    ]
}

#[test]
fn empty_query_keeps_catalogue_as_it_is() {
    let cats = catalogue();
    let r = filter_categories(&cats, "");
    assert_eq!(r.len(), 3);
    for (a, b) in r.iter().zip(cats.iter()) {
        assert_eq!(a.name, b.name);
        assert_eq!(a.is_open, b.is_open);
        assert_eq!(a.items.len(), b.items.len());
        for (x, y) in a.items.iter().zip(b.items.iter()) {
            assert_eq!(x.title, y.title);
            assert_eq!(x.description, y.description);
        }
    }
}

#[test]
fn whitespace_only_query_keeps_catalogue_as_it_is() {
    let cats = catalogue();
    let r = filter_categories(&cats, "   ");
    assert_eq!(r.len(), 3);
    assert_eq!(r[1].name, "Quantum");
    assert!(!r[1].is_open);
    assert_eq!(r[2].items.len(), 5);
}

#[test]
fn upper_case_query_matches_case_insensitively() {
    let cats = catalogue();
    let r = filter_categories(&cats, "REGRESSION");
    assert_eq!(r.len(), 1);
    assert_eq!(r[0].name, "AI");
    assert!(r[0].is_open);
    assert_eq!(r[0].items.len(), 1);
    assert_eq!(r[0].items[0].title, "Linear Regression");
}

#[test]
fn query_is_trimmed_before_matching() {
    let cats = catalogue();
    let r = filter_categories(&cats, "  linear  ");
    assert_eq!(r.len(), 1);
    assert_eq!(r[0].name, "AI");
    assert_eq!(r[0].items[0].title, "Linear Regression");
}

#[test]
fn matching_categories_keep_only_matching_items_and_open_up() {
    let cats = catalogue();
    let r = filter_categories(&cats, "quantum");
    assert_eq!(r.len(), 2);
    assert_eq!(r[0].name, "Quantum");
    assert!(r[0].is_open);
    assert_eq!(r[0].items.len(), 1);
    assert_eq!(r[1].name, "Hybrid");
    let titles: Vec<&str> = r[1].items.iter().map(|m| m.title.as_str()).collect();
    assert_eq!(
        titles,
        vec![
            "Quantum Neural Networks",
            "Variational Quantum Eigensolver",
            "Quantum Approximate Optimization",
            "Quantum Feature Maps",
        ]
    );
}

#[test]
fn unmatched_query_empties_the_catalogue() {
    let cats = catalogue();
    let r = filter_categories(&cats, "tensor");
    assert!(r.is_empty());
}

#[test]
fn byte_search_finds_inner_and_rejects_reordered() {
    let hay = [1u8, 2, 3, 4];
    assert!(has_match(&hay, &[2, 3]));
    assert!(has_match(&hay, &[]));
    assert!(has_match(&hay, &[1, 2, 3, 4]));
    assert!(!has_match(&hay, &[3, 2]));
    assert!(!has_match(&hay, &[1, 2, 3, 4, 5]));
    assert!(!has_match(&[], &[1]));
    assert!(has_match(&[], &[]));
}
