use crates_io_api::error::Error;
use crates_io_api::paging::FetchProbe;
use crates_io_api::paging::PageStream;
use crates_io_api::paging::Pull;

fn page(items: Vec<u32>) -> Option<FetchProbe<u32>> {
    Some(FetchProbe::Page { items })
}

#[test]
fn items_come_out_in_server_order_across_pages() {
    let mut s: PageStream<u32> = PageStream::new(1);
    let mut seen: Vec<u32> = Vec::new();
    // first pull asks for page 1
    match s.poll(None) {
        Pull::StartFetch { page } => assert_eq!(page, 1),
        _ => panic!("expected a fetch request"),
    }
    match s.poll(page(vec![1, 2, 3])) {
        Pull::Item { item } => seen.push(item),
        _ => panic!("expected an item"),
    }
    loop {
        match s.poll(None) {
            Pull::Item { item } => seen.push(item),
            Pull::StartFetch { page } => {
                assert_eq!(page, 2);
                break;
            },
            _ => panic!("expected items then a fetch request"),
        }
    }
    match s.poll(page(vec![4, 5])) {
        Pull::Item { item } => seen.push(item),
        _ => panic!("expected an item"),
    }
    match s.poll(None) {
        Pull::Item { item } => seen.push(item),
        _ => panic!("expected an item"),
    }
    assert_eq!(seen, vec![1, 2, 3, 4, 5]);
}

#[test]
fn a_partial_page_does_not_close_the_sequence() {
    let mut s: PageStream<u32> = PageStream::new(1);
    assert!(matches!(s.poll(None), Pull::StartFetch { page: 1 }));
    // two items where a full page would hold many more
    assert!(matches!(s.poll(page(vec![10, 11])), Pull::Item { item: 10 }));
    assert!(matches!(s.poll(None), Pull::Item { item: 11 }));
    // the buffer is drained, so the sequence asks for the next page
    assert!(matches!(s.poll(None), Pull::StartFetch { page: 2 }));
    assert!(!s.closed);
}

#[test]
fn only_an_empty_page_closes_the_sequence() {
    let mut s: PageStream<u32> = PageStream::new(1);
    assert!(matches!(s.poll(None), Pull::StartFetch { page: 1 }));
    assert!(matches!(s.poll(page(vec![7])), Pull::Item { item: 7 }));
    assert!(matches!(s.poll(None), Pull::StartFetch { page: 2 }));
    // the empty page, one round trip past the last content page, ends it
    assert!(matches!(s.poll(page(vec![])), Pull::Finished));
    assert!(s.closed);
    // closed is terminal
    assert!(matches!(s.poll(None), Pull::Finished));
    assert!(matches!(s.poll(None), Pull::Finished));
}

#[test]
fn a_pending_fetch_reports_not_yet_and_stays_pending() {
    let mut s: PageStream<u32> = PageStream::new(1);
    assert!(matches!(s.poll(None), Pull::StartFetch { page: 1 }));
    assert!(matches!(s.poll(Some(FetchProbe::NotReady)), Pull::NotYet));
    assert!(matches!(s.poll(Some(FetchProbe::NotReady)), Pull::NotYet));
    assert!(s.fetch_pending);
    assert!(matches!(s.poll(page(vec![1])), Pull::Item { item: 1 }));
}

#[test]
fn a_failed_fetch_is_the_terminal_item() {
    let mut s: PageStream<u32> = PageStream::new(1);
    assert!(matches!(s.poll(None), Pull::StartFetch { page: 1 }));
    let probe = Some(FetchProbe::Failed {
        error: Error::Api { message: "backend down".to_string() },
    });
    match s.poll(probe) {
        Pull::Failed { error: Error::Api { message } } => assert_eq!(message, "backend down"),
        _ => panic!("expected the error as the last item"),
    }
    assert!(s.closed);
    assert!(matches!(s.poll(None), Pull::Finished));
}

#[test]
fn page_numbers_advance_by_exactly_one() {
    let mut s: PageStream<u32> = PageStream::new(4);
    assert!(matches!(s.poll(None), Pull::StartFetch { page: 4 }));
    assert!(matches!(s.poll(page(vec![1])), Pull::Item { item: 1 }));
    assert!(matches!(s.poll(None), Pull::StartFetch { page: 5 }));
    assert!(matches!(s.poll(page(vec![2])), Pull::Item { item: 2 }));
    assert!(matches!(s.poll(None), Pull::StartFetch { page: 6 }));
}
