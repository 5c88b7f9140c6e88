//! The order of the wizard's pages and where its buttons lead.
use vstd::prelude::*;
use crate::text::same_text;

verus! {

/// The pages of the wizard, in the order they are added to the carousel.
#[derive(Clone, Copy, Debug, PartialEq, Eq, Structural)]
pub enum Page {
    Welcome,
    Internet,
    User,
    Update,
    Drivers,
    Codecs,
    GameUtils,
    Finish,
}

/// The position of a page in the carousel.
pub open spec fn page_number(p: Page) -> nat {
    match p {
        Page::Welcome => 0,
        Page::Internet => 1,
        Page::User => 2,
        Page::Update => 3,
        Page::Drivers => 4,
        Page::Codecs => 5,
        Page::GameUtils => 6,
        Page::Finish => 7,
    }
}

/// The number of pages.
pub const PAGE_COUNT: u32 = 8;

/// The page that follows `p`, if any.
pub open spec fn following(p: Page) -> Option<Page> {
    match p {
        Page::Welcome => Some(Page::Internet),
        Page::Internet => Some(Page::User),
        Page::User => Some(Page::Update),
        Page::Update => Some(Page::Drivers),
        Page::Drivers => Some(Page::Codecs),
        Page::Codecs => Some(Page::GameUtils),
        Page::GameUtils => Some(Page::Finish),
        Page::Finish => None,
    }
}

/// The position of a page in the carousel.
pub fn page_index(p: Page) -> (r: u32)
    ensures
        r == page_number(p),
        r < PAGE_COUNT,
{
    match p {
        Page::Welcome => 0,
        Page::Internet => 1,
        Page::User => 2,
        Page::Update => 3,
        Page::Drivers => 4,
        Page::Codecs => 5,
        Page::GameUtils => 6,
        Page::Finish => 7,
    }
}

/// The page at a position of the carousel, if there is one.
pub fn page_at(index: u32) -> (r: Option<Page>)
    ensures
        r matches Some(p) ==> page_number(p) == index,
        r is None <==> index >= PAGE_COUNT,
{
    if index == 0 {
        Some(Page::Welcome)
    } else if index == 1 {
        Some(Page::Internet)
    } else if index == 2 {
        Some(Page::User)
    } else if index == 3 {
        Some(Page::Update)
    } else if index == 4 {
        Some(Page::Drivers)
    } else if index == 5 {
        Some(Page::Codecs)
    } else if index == 6 {
        Some(Page::GameUtils)
    } else if index == 7 {
        Some(Page::Finish)
    } else {
        None
    }
}

/// The page the forward button of `p` scrolls to: the next one. The last
/// page has none (its button restarts the machine).
pub fn next_page(p: Page) -> (r: Option<Page>)
    ensures
        r == following(p),
        r matches Some(q) ==> page_number(q) == page_number(p) + 1,
        r is None <==> p == Page::Finish,
{
    match p {
        Page::Welcome => Some(Page::Internet),
        Page::Internet => Some(Page::User),
        Page::User => Some(Page::Update),
        Page::Update => Some(Page::Drivers),
        Page::Drivers => Some(Page::Codecs),
        Page::Codecs => Some(Page::GameUtils),
        Page::GameUtils => Some(Page::Finish),
        Page::Finish => None,
    }
}

/// One page back from `position`; the first page stays where it is.
pub open spec fn back_position(position: int) -> int {
    if position <= 0 {
        0
    } else {
        position - 1
    }
}

/// The position the header's back button scrolls to from position
/// `position`.
pub fn back_target(position: u32) -> (r: u32)
    ensures
        r == back_position(position as int),
{
    if position == 0 {
        0
    } else {
        position - 1
    }
}

/// The answer of the "skip network setup" dialog that confirms the skip.
pub const SKIP_CONFIRM: &'static str = "skip_confirm";

/// Where the internet page goes after the skip dialog closes with
/// `choice`: to the user page when the skip is confirmed, nowhere else.
pub fn internet_skip_target(choice: &str) -> (r: Option<Page>)
    ensures
        choice@ == SKIP_CONFIRM@ ==> r == Some(Page::User),
        choice@ != SKIP_CONFIRM@ ==> r is None,
{
    if same_text(choice, SKIP_CONFIRM) {
        Some(Page::User)
    } else {
        None
    }
}

/// Going forward from a page and then back returns to it.
pub proof fn back_undoes_forward(p: Page)
    requires
        p != Page::Finish,
    ensures
        following(p) matches Some(q) && back_position(page_number(q) as int) == page_number(p),
{
}

/// Going back never leaves the carousel and never moves forward.
pub proof fn back_stays_in_carousel(position: int)
    requires
        0 <= position < PAGE_COUNT,
    ensures
        0 <= back_position(position) <= position,
        position > 0 ==> back_position(position) == position - 1,
{
}

/// Forward buttons never leave the carousel and always move one page on.
pub proof fn forward_stays_in_carousel(p: Page)
    ensures
        following(p) matches Some(q) ==> page_number(q) < PAGE_COUNT && page_number(q) == page_number(p) + 1,
{
}

} // verus!
