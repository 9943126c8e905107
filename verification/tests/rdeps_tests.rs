use crates_io_api::rdeps::Meta;
use crates_io_api::rdeps::RdepsAccum;
use crates_io_api::rdeps::ReverseDependencies;
use crates_io_api::rdeps::ReverseDependency;
use crates_io_api::rdeps::REVERSE_DEPS_PAGE_SIZE;
use crates_io_api::rdeps::count_from_page;
use crates_io_api::rdeps::page_request;

fn rdep(name: &str, downloads: u64) -> ReverseDependency {
    ReverseDependency { crate_name: name.to_string(), downloads }
}

fn page_of(n: u64, total: u64) -> ReverseDependencies {
    let mut dependencies = Vec::new();
    for i in 0..n {
        dependencies.push(rdep(&format!("user-{}", i), i));
    }
    ReverseDependencies { dependencies, meta: Meta { total } }
}

#[test]
fn page_size_is_fixed_at_100() {
    assert_eq!(REVERSE_DEPS_PAGE_SIZE, 100);
    assert_eq!(page_request(3).per_page, 100);
}

#[test]
fn page_zero_is_treated_identically_to_page_one() {
    assert_eq!(page_request(0), page_request(1));
    assert_eq!(page_request(0).page, 1);
}

#[test]
fn positive_page_numbers_pass_through() {
    assert_eq!(page_request(1).page, 1);
    assert_eq!(page_request(17).page, 17);
}

#[test]
fn count_is_the_reported_total_not_the_item_count() {
    let page = page_of(2, 451);
    assert_eq!(count_from_page(&page), 451);
}

#[test]
fn two_full_pages_then_an_empty_one_make_three_calls_and_200_items() {
    let mut accum = RdepsAccum::new();
    let mut calls: u64 = 0;

    let r1 = accum.next_request();
    calls += 1;
    assert_eq!((r1.page, r1.per_page), (1, 100));
    assert!(accum.absorb(page_of(100, 205)));

    let r2 = accum.next_request();
    calls += 1;
    assert_eq!((r2.page, r2.per_page), (2, 100));
    assert!(accum.absorb(page_of(100, 205)));

    let r3 = accum.next_request();
    calls += 1;
    assert_eq!(r3.page, 3);
    assert!(!accum.absorb(page_of(0, 0)));

    assert_eq!(calls, 3);
    assert_eq!(accum.deps.dependencies.len(), 200);
    assert_eq!(accum.deps.meta.total, 205);
}

#[test]
fn accumulation_keeps_page_order() {
    let mut accum = RdepsAccum::new();
    accum.next_request();
    assert!(accum.absorb(ReverseDependencies {
        dependencies: vec![rdep("a", 1), rdep("b", 2)],
        meta: Meta { total: 3 },
    }));
    accum.next_request();
    assert!(accum.absorb(ReverseDependencies {
        dependencies: vec![rdep("c", 3)],
        meta: Meta { total: 3 },
    }));
    accum.next_request();
    assert!(!accum.absorb(ReverseDependencies {
        dependencies: vec![],
        meta: Meta { total: 0 },
    }));
    let names: Vec<&str> =
        accum.deps.dependencies.iter().map(|d| d.crate_name.as_str()).collect();
    assert_eq!(names, vec!["a", "b", "c"]);
    // the total is the last non-empty page's total, untouched by the empty page
    assert_eq!(accum.deps.meta.total, 3);
}

#[test]
fn an_empty_first_page_leaves_an_empty_accumulation() {
    let mut accum = RdepsAccum::new();
    accum.next_request();
    assert!(!accum.absorb(page_of(0, 0)));
    assert_eq!(accum.deps.dependencies.len(), 0);
    assert_eq!(accum.deps.meta.total, 0);
}
