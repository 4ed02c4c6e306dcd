//! Screen navigation: which page the two buttons walk to next.
//!
//! A is the approve button. It has to be free the instant a prompt lands, so at rest it does
//! the smallest possible thing — turns the page within the current screen — and never
//! navigates away. B walks the screens. A held is the menu, and is left to the caller.
use vstd::prelude::*;
use crate::display::view::{InfoPage, PetPage, Screen};

verus! {

/// Which button.
#[derive(Clone, Copy, PartialEq, Eq, Debug, Structural)]
pub enum ButtonId {
    /// The front button — A, the approve button.
    Front,
    /// The side button — B, the one that walks the screens.
    Side,
    /// The power button.
    Power,
}

/// What the press was.
#[derive(Clone, Copy, PartialEq, Eq, Debug, Structural)]
pub enum Gesture {
    /// A short press.
    Click,
    /// A press held down.
    LongHold,
}

/// One button event.
#[derive(Clone, Copy, PartialEq, Eq, Debug, Structural)]
pub struct ButtonEvent {
    /// Which button.
    pub button: ButtonId,
    /// What the press was.
    pub gesture: Gesture,
}

impl ButtonEvent {
    /// The event of `gesture` on `button`.
    pub fn new(button: ButtonId, gesture: Gesture) -> (r: Self)
        ensures
            r == (ButtonEvent { button, gesture }),
    {
        ButtonEvent { button, gesture }
    }
}


/// Where a screen sits in the ring, whatever page it is at.
pub open spec fn ring_index(s: Screen) -> int {
    match s {
        Screen::Home => 0,
        Screen::Pet(_) => 1,
        Screen::Info(_) => 2,
        Screen::Clock => 3,
    }
}

/// The ring of screens B walks through, in order — home, pet, info, clock — each entered at
/// its first page. The clock is in the ring because it is the owner's to walk to.
pub open spec fn ring_at(i: int) -> Screen {
    if i == 0 {
        Screen::Home
    } else if i == 1 {
        Screen::Pet(PetPage::Stats)
    } else if i == 2 {
        Screen::Info(InfoPage::About)
    } else {
        Screen::Clock
    }
}

/// The next info page, wrapping through all six.
pub open spec fn next_info_spec(page: InfoPage) -> InfoPage {
    match page {
        InfoPage::About => InfoPage::Buttons,
        InfoPage::Buttons => InfoPage::Claude,
        InfoPage::Claude => InfoPage::Device,
        InfoPage::Device => InfoPage::Bluetooth,
        InfoPage::Bluetooth => InfoPage::Credits,
        InfoPage::Credits => InfoPage::About,
    }
}

/// The next page within a screen, wrapping; home and the clock have one page each.
pub open spec fn next_page_spec(screen: Screen) -> Screen {
    match screen {
        Screen::Pet(PetPage::Stats) => Screen::Pet(PetPage::HowTo),
        Screen::Pet(PetPage::HowTo) => Screen::Pet(PetPage::Stats),
        Screen::Info(page) => Screen::Info(next_info_spec(page)),
        other => other,
    }
}

/// The next screen in the ring, entered at its first page.
pub open spec fn next_screen_spec(screen: Screen) -> Screen {
    ring_at((ring_index(screen) + 1) % 4)
}

/// Which screen is showing, and where within it.
#[derive(Clone, Copy, PartialEq, Eq, Debug, Structural)]
pub struct Nav {
    screen: Screen,
}

impl View for Nav {
    type V = Screen;

    closed spec fn view(&self) -> Screen {
        self.screen
    }
}

impl Nav {
    /// At home, where the buddy starts.
    pub fn new() -> (r: Self)
        ensures
            r@ == Screen::Home,
    {
        Nav { screen: Screen::Home }
    }

    /// The screen to render.
    pub fn screen(&self) -> (r: Screen)
        ensures
            r == self@,
    {
        self.screen
    }

    /// Force a screen — how the clock takes the glass when the battery is about to die.
    pub fn show(&mut self, screen: Screen)
        ensures
            final(self)@ == screen,
    {
        self.screen = screen;
    }

    /// Fold one button event into the navigation, answering whether it was consumed: an A
    /// click turns the page, a B click walks to the next screen; anything else — a hold, the
    /// power button — is left for the caller.
    pub fn press(&mut self, event: ButtonEvent) -> (r: bool)
        ensures
            r == (event.gesture == Gesture::Click && (event.button == ButtonId::Front || event.button
                == ButtonId::Side)),
            event.gesture == Gesture::Click && event.button == ButtonId::Front ==> final(self)@
                == next_page_spec(old(self)@),
            event.gesture == Gesture::Click && event.button == ButtonId::Side ==> final(self)@
                == next_screen_spec(old(self)@),
            !r ==> final(self)@ == old(self)@,
    {
        match (event.button, event.gesture) {
            (ButtonId::Front, Gesture::Click) => {
                self.screen = next_page(self.screen);
                true
            },
            (ButtonId::Side, Gesture::Click) => {
                self.screen = next_screen(self.screen);
                true
            },
            _ => false,
        }
    }
}

/// The next page within a screen, wrapping. Home and the clock have one page each, so A does
/// nothing there — the answer button stays quiet at rest.
pub fn next_page(screen: Screen) -> (r: Screen)
    ensures
        r == next_page_spec(screen),
{
    match screen {
        Screen::Pet(PetPage::Stats) => Screen::Pet(PetPage::HowTo),
        Screen::Pet(PetPage::HowTo) => Screen::Pet(PetPage::Stats),
        Screen::Info(page) => Screen::Info(next_info(page)),
        other => other,
    }
}

/// The next info page, wrapping through all six.
pub fn next_info(page: InfoPage) -> (r: InfoPage)
    ensures
        r == next_info_spec(page),
{
    match page {
        InfoPage::About => InfoPage::Buttons,
        InfoPage::Buttons => InfoPage::Claude,
        InfoPage::Claude => InfoPage::Device,
        InfoPage::Device => InfoPage::Bluetooth,
        InfoPage::Bluetooth => InfoPage::Credits,
        InfoPage::Credits => InfoPage::About,
    }
}

/// The next screen in the ring, entering each at its first page. A screen not found in the
/// ring walks to the first, so B always leads somewhere.
pub fn next_screen(screen: Screen) -> (r: Screen)
    ensures
        r == next_screen_spec(screen),
{
    let mut i: usize = 0;
    while i < 4 && !same_screen(ring_screen(i), screen)
        invariant
            i <= 4,
            forall|k: int| 0 <= k < i ==> ring_index(#[trigger] ring_at(k)) != ring_index(screen),
        decreases 4 - i,
    {
        i = i + 1;
    }
    let at: usize = if i < 4 {
        i
    } else {
        3
    };
    proof {
        if i == 4 {
            assert(ring_index(ring_at(0)) == 0);
            assert(ring_index(ring_at(1)) == 1);
            assert(ring_index(ring_at(2)) == 2);
            assert(ring_index(ring_at(3)) == 3);
        }
    }
    ring_screen((at + 1) % 4)
}

/// The ring's screen at `i`.
fn ring_screen(i: usize) -> (r: Screen)
    requires
        i < 4,
    ensures
        r == ring_at(i as int),
{
    if i == 0 {
        Screen::Home
    } else if i == 1 {
        Screen::Pet(PetPage::Stats)
    } else if i == 2 {
        Screen::Info(InfoPage::About)
    } else {
        Screen::Clock
    }
}

/// Whether two screens are the same screen, ignoring which page of it is showing.
pub fn same_screen(left: Screen, right: Screen) -> (r: bool)
    ensures
        r == (ring_index(left) == ring_index(right)),
{
    matches!(
        (left, right),
        (Screen::Home, Screen::Home) | (Screen::Pet(_), Screen::Pet(_)) | (Screen::Info(_), Screen::Info(_)) | (Screen::Clock, Screen::Clock)
    )
}

/// The info page `k` turns after `page`.
pub open spec fn info_after(page: InfoPage, k: nat) -> InfoPage
    decreases k,
{
    if k == 0 {
        page
    } else {
        next_info_spec(info_after(page, (k - 1) as nat))
    }
}

/// The screen `k` B clicks after `screen`.
pub open spec fn screen_after(screen: Screen, k: nat) -> Screen
    decreases k,
{
    if k == 0 {
        screen
    } else {
        next_screen_spec(screen_after(screen, (k - 1) as nat))
    }
}

/// The answer button never leaves the screen it is on — it only turns the page within it,
/// and at home and on the clock it does nothing at all.
pub proof fn the_answer_button_stays_put(screen: Screen)
    ensures
        ring_index(next_page_spec(screen)) == ring_index(screen),
        screen == Screen::Home ==> next_page_spec(screen) == Screen::Home,
        screen == Screen::Clock ==> next_page_spec(screen) == Screen::Clock,
{
}

/// B walks the whole ring — home, pet, info, clock — and four clicks bring any screen back to
/// the first page of where it started.
pub proof fn b_walks_the_ring(screen: Screen)
    ensures
        screen_after(Screen::Home, 1) == Screen::Pet(PetPage::Stats),
        screen_after(Screen::Home, 2) == Screen::Info(InfoPage::About),
        screen_after(Screen::Home, 3) == Screen::Clock,
        screen_after(Screen::Home, 4) == Screen::Home,
        screen_after(screen, 4) == ring_at(ring_index(screen)),
{
    reveal_with_fuel(screen_after, 5);
}

/// Where an info page sits in cursor order.
pub open spec fn info_index(page: InfoPage) -> int {
    match page {
        InfoPage::About => 0,
        InfoPage::Buttons => 1,
        InfoPage::Claude => 2,
        InfoPage::Device => 3,
        InfoPage::Bluetooth => 4,
        InfoPage::Credits => 5,
    }
}

/// Turning `k` pages moves `k` places along the cursor order, wrapping.
proof fn lemma_info_after(page: InfoPage, k: nat)
    ensures
        info_index(info_after(page, k)) == (info_index(page) + k) % 6,
    decreases k,
{
    if k > 0 {
        lemma_info_after(page, (k - 1) as nat);
    }
}

/// Distinct pages sit at distinct places in cursor order.
proof fn lemma_info_index_injective(a: InfoPage, b: InfoPage)
    ensures
        info_index(a) == info_index(b) ==> a == b,
{
    match a {
        InfoPage::About => match b {
                InfoPage::About => {},
                InfoPage::Buttons => {},
                InfoPage::Claude => {},
                InfoPage::Device => {},
                InfoPage::Bluetooth => {},
                InfoPage::Credits => {},
            },
        InfoPage::Buttons => match b {
                InfoPage::About => {},
                InfoPage::Buttons => {},
                InfoPage::Claude => {},
                InfoPage::Device => {},
                InfoPage::Bluetooth => {},
                InfoPage::Credits => {},
            },
        InfoPage::Claude => match b {
                InfoPage::About => {},
                InfoPage::Buttons => {},
                InfoPage::Claude => {},
                InfoPage::Device => {},
                InfoPage::Bluetooth => {},
                InfoPage::Credits => {},
            },
        InfoPage::Device => match b {
                InfoPage::About => {},
                InfoPage::Buttons => {},
                InfoPage::Claude => {},
                InfoPage::Device => {},
                InfoPage::Bluetooth => {},
                InfoPage::Credits => {},
            },
        InfoPage::Bluetooth => match b {
                InfoPage::About => {},
                InfoPage::Buttons => {},
                InfoPage::Claude => {},
                InfoPage::Device => {},
                InfoPage::Bluetooth => {},
                InfoPage::Credits => {},
            },
        InfoPage::Credits => match b {
                InfoPage::About => {},
                InfoPage::Buttons => {},
                InfoPage::Claude => {},
                InfoPage::Device => {},
                InfoPage::Bluetooth => {},
                InfoPage::Credits => {},
            },
    }
}

/// The pages met on the way are all different.
proof fn lemma_info_distinct(page: InfoPage, i: nat, j: nat)
    requires
        i < j < 6,
    ensures
        info_after(page, i) != info_after(page, j),
{
    lemma_info_after(page, i);
    lemma_info_after(page, j);
}

/// Every page is met on the way.
proof fn lemma_info_reaches(page: InfoPage, q: InfoPage)
    ensures
        info_after(page, ((info_index(q) - info_index(page) + 6) % 6) as nat) == q,
{
    let i: nat = ((info_index(q) - info_index(page) + 6) % 6) as nat;
    lemma_info_after(page, i);
    lemma_info_index_injective(info_after(page, i), q);
}

/// Every info page is reachable, and the sixth wraps to the first: six turns bring any page
/// back, the pages met on the way are all different, and every page is among them.
pub proof fn every_info_page_is_reachable(page: InfoPage)
    ensures
        info_after(page, 6) == page,
        forall|i: nat, j: nat| i < j < 6 ==> #[trigger] info_after(page, i) != #[trigger] info_after(page, j),
        forall|q: InfoPage|
            #[trigger] info_after(page, ((info_index(q) - info_index(page) + 6) % 6) as nat) == q,
{
    lemma_info_after(page, 6);
    lemma_info_index_injective(info_after(page, 6), page);
    assert forall|i: nat, j: nat| i < j < 6 implies #[trigger] info_after(page, i) != #[trigger] info_after(page, j) by {
        lemma_info_distinct(page, i, j);
    }
    assert forall|q: InfoPage|
        #[trigger] info_after(page, ((info_index(q) - info_index(page) + 6) % 6) as nat) == q by {
        lemma_info_reaches(page, q);
    }
}

} // verus!
