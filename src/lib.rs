use vstd::prelude::*;

pub mod first;
pub mod second;
pub mod view;

pub use first::{FirstPage, FirstPageMessage};
pub use second::SecondPage;
pub use view::{Button, PageModel, PageView};

verus! {

/// The application: exactly one page is active at a time.
#[derive(Debug, Clone, Copy, PartialEq, Eq, Structural)]
pub enum App {
    FirstPage(FirstPage),
    SecondPage(SecondPage),
}

/// An event delivered to the application: one meant for the first page, or a
/// request to replace the active page with the given one.
#[derive(Debug, Clone, Copy, PartialEq, Eq, Structural)]
pub enum Message {
    FirstPage(FirstPageMessage),
    SwitchPage(App),
}

impl App {
    /// Whether `message` is routed correctly for this page: a page switch is
    /// always accepted, a first-page event only while the first page is active.
    pub open spec fn accepts(self, message: Message) -> bool {
        match message {
            Message::SwitchPage(_) => true,
            Message::FirstPage(_) => self is FirstPage,
        }
    }

    /// The application after it handled a correctly routed `message`.
    pub open spec fn step(self, message: Message) -> App
        recommends
            self.accepts(message),
    {
        match message {
            Message::SwitchPage(target) => target,
            Message::FirstPage(m) => match self {
                App::FirstPage(page) => App::FirstPage(page.step(m)),
                App::SecondPage(_) => self,
            },
        }
    }

    /// What the active page shows.
    pub open spec fn screen(self) -> PageModel {
        match self {
            App::FirstPage(page) => page.screen(),
            App::SecondPage(page) => page.screen(),
        }
    }

    /// The state the application starts in.
    pub fn new() -> (r: App)
        ensures
            r == App::FirstPage(FirstPage(1)),
    {
        App::FirstPage(FirstPage(1))
    }

    /// The window's title.
    pub fn title(&self) -> (r: String)
        ensures
            r@ == "Two page app"@,
    {
        String::from_str("Two page app")
    }

    pub fn view(&self) -> (r: PageView)
        ensures
            r@ == self.screen(),
    {
        match self {
            App::FirstPage(page) => page.view(),
            App::SecondPage(page) => page.view(),
        }
    }

    /// Whether `update` may be given `message` in this state. A message that is
    /// not accepted means the events were routed wrongly, a defect of the
    /// caller that it must not recover from.
    pub fn routes(&self, message: &Message) -> (r: bool)
        ensures
            r == self.accepts(*message),
    {
        match (self, message) {
            (_, Message::SwitchPage(_)) => true,
            (App::FirstPage(_), Message::FirstPage(_)) => true,
            (App::SecondPage(_), Message::FirstPage(_)) => false,
        }
    }

    /// Handles one event: a page switch replaces the active page outright; a
    /// first-page event changes the first page in place.
    pub fn update(&mut self, message: Message)
        requires
            old(self).accepts(message),
        ensures
            *final(self) == old(self).step(message),
    {
        match message {
            Message::SwitchPage(target) => {
                *self = target;
            },
            Message::FirstPage(m) => {
                if let App::FirstPage(page) = self {
                    page.update(m);
                }
            },
        }
    }
}

/// What the application shows is a function of its state alone: two views
/// taken of the same state are the same.
pub proof fn lemma_view_depends_on_state_alone(state: App, a: PageView, b: PageView)
    requires
        a@ == state.screen(),
        b@ == state.screen(),
    ensures
        a@ == b@,
{
}

/// An increment on the first page with counter `n` below the largest `u8`
/// is accepted and leaves the first page with counter `n + 1`.
pub proof fn lemma_increment_adds_one(n: u8)
    requires
        n < u8::MAX,
    ensures
        App::FirstPage(FirstPage(n)).accepts(Message::FirstPage(FirstPageMessage::IncrementButton)),
        App::FirstPage(FirstPage(n)).step(Message::FirstPage(FirstPageMessage::IncrementButton))
            == App::FirstPage(FirstPage((n + 1) as u8)),
{
}

/// From any state, switching to the second page with value `n` is accepted
/// and yields exactly that page, with `n` kept.
pub proof fn lemma_switch_to_second_keeps_value(state: App, n: u8)
    ensures
        state.accepts(Message::SwitchPage(App::SecondPage(SecondPage(n)))),
        state.step(Message::SwitchPage(App::SecondPage(SecondPage(n)))) == App::SecondPage(SecondPage(n)),
{
}

/// From any state, switching to the first page with counter 1 is accepted
/// and yields that page, whatever counter was there before.
pub proof fn lemma_switch_to_first_starts_over(state: App)
    ensures
        state.accepts(Message::SwitchPage(App::FirstPage(FirstPage(1)))),
        state.step(Message::SwitchPage(App::FirstPage(FirstPage(1)))) == App::FirstPage(FirstPage(1)),
{
}

/// An increment delivered while the second page is active is never
/// accepted: `update` does not admit it, and `routes` reports it.
pub proof fn lemma_increment_on_second_is_misrouted(n: u8)
    ensures
        !App::SecondPage(SecondPage(n)).accepts(Message::FirstPage(FirstPageMessage::IncrementButton)),
{
}

/// The "Go back" button of any second page leads to a first page whose
/// counter is 1, not to the value the second page showed.
pub proof fn lemma_go_back_resets_counter(n: u8)
    ensures
        App::SecondPage(SecondPage(n)).screen().1.len() == 1,
        App::SecondPage(SecondPage(n)).accepts(App::SecondPage(SecondPage(n)).screen().1[0].1),
        App::SecondPage(SecondPage(n)).step(App::SecondPage(SecondPage(n)).screen().1[0].1)
            == App::FirstPage(FirstPage(1)),
{
}

} // verus!
