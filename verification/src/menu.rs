//! The sidebar catalogue: categories of menu items, and its search filter.
//!
//! Filtering keeps, in order, every category with at least one item whose
//! title contains the search query, compared case-insensitively; a kept
//! category keeps exactly its matching items, in order, and is forced open.
//! An empty query (after trimming) leaves the catalogue as it is.

use vstd::prelude::*;

use vstd::utf8::encode_utf8;

use crate::text::{contains_bytes, has_match, lower_of, lowercase_str, trim_of, trim_str};

verus! {

/// One entry of the sidebar.
#[derive(Clone, Debug)]
pub struct MenuItem {
    pub title: String,
    pub description: String,
}

/// A named group of menu items that can be folded shut.
#[derive(Clone, Debug)]
pub struct Category {
    pub name: String,
    pub items: Vec<MenuItem>,
    pub is_open: bool,
}

/// The mathematical content of a `MenuItem`: its two texts.
#[verifier::ext_equal]
pub struct MenuItemView {
    pub title: Seq<char>,
    pub description: Seq<char>,
}

/// The mathematical content of a `Category`.
#[verifier::ext_equal]
pub struct CategoryView {
    pub name: Seq<char>,
    pub items: Seq<MenuItemView>,
    pub is_open: bool,
}

impl View for MenuItem {
    type V = MenuItemView;

    open spec fn view(&self) -> MenuItemView {
        MenuItemView { title: self.title@, description: self.description@ }
    }
}

/// The contents of a sequence of menu items.
pub open spec fn item_views(items: Seq<MenuItem>) -> Seq<MenuItemView> {
    items.map_values(|m: MenuItem| m@)
}

impl View for Category {
    type V = CategoryView;

    open spec fn view(&self) -> CategoryView {
        CategoryView { name: self.name@, items: item_views(self.items@), is_open: self.is_open }
    }
}

/// The contents of a sequence of categories.
pub open spec fn category_views(cats: Seq<Category>) -> Seq<CategoryView> {
    cats.map_values(|c: Category| c@)
}

/// The byte key a search query turns into: the query is trimmed, folded to
/// lower case, and taken as UTF-8.
pub open spec fn search_key(query: Seq<char>) -> Seq<u8> {
    encode_utf8(lower_of(trim_of(query)))
}

/// Whether an item's title contains the search key, both sides folded to
/// lower case.
pub open spec fn item_matches(m: MenuItemView, key: Seq<u8>) -> bool {
    contains_bytes(encode_utf8(lower_of(m.title)), key)
}

/// The items that a search with `key` keeps, in order.
pub open spec fn filtered_items(items: Seq<MenuItemView>, key: Seq<u8>) -> Seq<MenuItemView>
    decreases items.len(),
{
    if items.len() == 0 {
        Seq::empty()
    } else {
        let rest = filtered_items(items.drop_last(), key);
        if item_matches(items.last(), key) {
            rest.push(items.last())
        } else {
            rest
        }
    }
}

/// The catalogue that a search with `key` keeps: every category with at
/// least one matching item, reduced to those items and forced open.
pub open spec fn filtered_catalogue(cats: Seq<CategoryView>, key: Seq<u8>) -> Seq<CategoryView>
    decreases cats.len(),
{
    if cats.len() == 0 {
        Seq::empty()
    } else {
        let rest = filtered_catalogue(cats.drop_last(), key);
        let kept = filtered_items(cats.last().items, key);
        if kept.len() > 0 {
            rest.push(CategoryView { name: cats.last().name, items: kept, is_open: true })
        } else {
            rest
        }
    }
}

proof fn lemma_filtered_items_push(items: Seq<MenuItemView>, m: MenuItemView, key: Seq<u8>)
    ensures
        filtered_items(items.push(m), key) == (if item_matches(m, key) {
            filtered_items(items, key).push(m)
        } else {
            filtered_items(items, key)
        }),
{
    assert(items.push(m).drop_last() =~= items);
    assert(items.push(m).last() == m);
}

proof fn lemma_filtered_catalogue_push(cats: Seq<CategoryView>, c: CategoryView, key: Seq<u8>)
    ensures
        filtered_catalogue(cats.push(c), key) == ({
            let kept = filtered_items(c.items, key);
            if kept.len() > 0 {
                filtered_catalogue(cats, key).push(
                    CategoryView { name: c.name, items: kept, is_open: true },
                )
            } else {
                filtered_catalogue(cats, key)
            }
        }),
{
    assert(cats.push(c).drop_last() =~= cats);
    assert(cats.push(c).last() == c);
}

/// A copy of a menu item with the same contents.
fn copy_item(m: &MenuItem) -> (r: MenuItem)
    ensures
        r@ == m@,
{
    MenuItem { title: m.title.clone(), description: m.description.clone() }
}

/// A copy of a list of menu items with the same contents.
fn copy_items(items: &Vec<MenuItem>) -> (r: Vec<MenuItem>)
    ensures
        item_views(r@) == item_views(items@),
{
    let mut r: Vec<MenuItem> = Vec::new();
    let mut i: usize = 0;
    while i < items.len()
        invariant
            i <= items@.len(),
            r@.len() == i,
            forall|j: int| 0 <= j < i ==> #[trigger] r@[j]@ == items@[j]@,
        decreases items@.len() - i,
    {
        r.push(copy_item(&items[i]));
        i = i + 1;
    }
    assert(item_views(r@) =~= item_views(items@));
    r
}

/// A copy of a category with the same contents.
fn copy_category(c: &Category) -> (r: Category)
    ensures
        r@ == c@,
{
    Category { name: c.name.clone(), items: copy_items(&c.items), is_open: c.is_open }
}

/// A copy of a catalogue with the same contents.
fn copy_categories(cats: &Vec<Category>) -> (r: Vec<Category>)
    ensures
        category_views(r@) == category_views(cats@),
{
    let mut r: Vec<Category> = Vec::new();
    let mut i: usize = 0;
    while i < cats.len()
        invariant
            i <= cats@.len(),
            r@.len() == i,
            forall|j: int| 0 <= j < i ==> #[trigger] r@[j]@ == cats@[j]@,
        decreases cats@.len() - i,
    {
        r.push(copy_category(&cats[i]));
        i = i + 1;
    }
    assert(category_views(r@) =~= category_views(cats@));
    r
}

/// Whether an item's title contains the already-folded search key.
fn item_title_matches(item: &MenuItem, key: &[u8]) -> (r: bool)
    ensures
        r == item_matches(item@, key@),
{
    let folded = lowercase_str(item.title.as_str());
    has_match(folded.as_str().as_bytes(), key)
}

/// Filters the catalogue by a search query.
///
/// The query is trimmed and folded to lower case. If nothing is left, the
/// catalogue is returned as it is. Otherwise the result keeps, in order,
/// exactly the categories with a matching item, each reduced to its matching
/// items and forced open.
pub fn filter_categories(categories: &Vec<Category>, search_query: &str) -> (r: Vec<Category>)
    ensures
        lower_of(trim_of(search_query@)).len() == 0 ==> category_views(r@) == category_views(
            categories@,
        ),
        lower_of(trim_of(search_query@)).len() > 0 ==> category_views(r@) == filtered_catalogue(
            category_views(categories@),
            search_key(search_query@),
        ),
{
    let trimmed = trim_str(search_query);
    let folded = lowercase_str(trimmed);
    if folded.as_str().is_empty() {
        return copy_categories(categories);
    }
    let key: &[u8] = folded.as_str().as_bytes();
    let ghost keyspec = search_key(search_query@);
    assert(key@ == keyspec);
    let mut r: Vec<Category> = Vec::new();
    let mut ci: usize = 0;
    while ci < categories.len()
        invariant
            ci <= categories@.len(),
            key@ == keyspec,
            category_views(r@) == filtered_catalogue(
                category_views(categories@).take(ci as int),
                keyspec,
            ),
        decreases categories@.len() - ci,
    {
        let c = &categories[ci];
        let mut kept: Vec<MenuItem> = Vec::new();
        let mut ii: usize = 0;
        while ii < c.items.len()
            invariant
                ii <= c.items@.len(),
                key@ == keyspec,
                item_views(kept@) == filtered_items(
                    item_views(c.items@).take(ii as int),
                    keyspec,
                ),
            decreases c.items@.len() - ii,
        {
            let item = &c.items[ii];
            proof {
                assert(item_views(c.items@).take(ii + 1) =~= item_views(c.items@).take(
                    ii as int,
                ).push(item@));
                lemma_filtered_items_push(
                    item_views(c.items@).take(ii as int),
                    item@,
                    keyspec,
                );
            }
            if item_title_matches(item, key) {
                kept.push(copy_item(item));
                assert(item_views(kept@) =~= item_views(kept@.drop_last()).push(item@));
            }
            ii = ii + 1;
        }
        assert(item_views(c.items@).take(c.items@.len() as int) =~= item_views(c.items@));
        proof {
            assert(category_views(categories@).take(ci + 1) =~= category_views(
                categories@,
            ).take(ci as int).push(c@));
            lemma_filtered_catalogue_push(
                category_views(categories@).take(ci as int),
                c@,
                keyspec,
            );
        }
        if kept.len() > 0 {
            let folded_cat = Category { name: c.name.clone(), items: kept, is_open: true };
            assert(folded_cat@ == (CategoryView {
                name: c@.name,
                items: filtered_items(c@.items, keyspec),
                is_open: true,
            }));
            r.push(folded_cat);
            assert(category_views(r@) =~= category_views(r@.drop_last()).push(r@.last()@));
        }
        ci = ci + 1;
    }
    assert(category_views(categories@).take(categories@.len() as int) =~= category_views(
        categories@,
    ));
    r
}

} // verus!
