use pika_first_setup::navigation::{
    back_target, internet_skip_target, next_page, page_at, page_index, Page, PAGE_COUNT,
};

#[test]
fn pages_follow_carousel_order() {
    assert_eq!(page_index(Page::Welcome), 0);
    assert_eq!(page_index(Page::User), 2);
    assert_eq!(page_index(Page::Codecs), 5);
    assert_eq!(page_index(Page::Finish), 7);
    assert_eq!(page_at(4), Some(Page::Drivers));
    assert_eq!(page_at(PAGE_COUNT), None);
}

#[test]
fn forward_goes_to_next_page() {
    assert_eq!(next_page(Page::Welcome), Some(Page::Internet));
    assert_eq!(next_page(Page::Update), Some(Page::Drivers));
    assert_eq!(next_page(Page::Codecs), Some(Page::GameUtils));
    assert_eq!(next_page(Page::Finish), None);
}

#[test]
fn back_goes_one_page_back() {
    assert_eq!(back_target(0), 0);
    assert_eq!(back_target(3), 2);
    let fwd = page_index(next_page(Page::User).unwrap());
    assert_eq!(back_target(fwd), page_index(Page::User));
}

#[test]
fn skip_dialog_only_confirm_moves_on() {
    assert_eq!(internet_skip_target("skip_confirm"), Some(Page::User));
    assert_eq!(internet_skip_target("skip_cancel"), None);
    assert_eq!(internet_skip_target(""), None);
}
