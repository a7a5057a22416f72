use vstd::prelude::*;

use crate::second::SecondPage;
use crate::view::{button, label_with_number, Button, PageModel, PageView};
use crate::{App, Message};

verus! {

/// The first page: it shows a counter that can be incremented.
#[derive(Debug, Clone, Copy, PartialEq, Eq, Structural)]
pub struct FirstPage(pub u8);

/// Events handled by the first page itself.
#[derive(Debug, Clone, Copy, PartialEq, Eq, Structural)]
pub enum FirstPageMessage {
    IncrementButton,
}

impl FirstPage {
    /// The page after it handled `message`. The counter saturates: at the
    /// largest `u8` an increment leaves it where it is.
    pub open spec fn step(self, message: FirstPageMessage) -> FirstPage {
        match message {
            FirstPageMessage::IncrementButton => if self.0 < u8::MAX {
                FirstPage((self.0 + 1) as u8)
            } else {
                self
            },
        }
    }

    /// What the page shows: the counter, an increment button, and a button
    /// that opens the second page with the current counter.
    pub open spec fn screen(self) -> PageModel {
        (
            "First page (number is "@ + crate::view::decimal(self.0 as nat) + ")"@,
            seq![
                ("Increment"@, Message::FirstPage(FirstPageMessage::IncrementButton)),
                ("Go forward"@, Message::SwitchPage(App::SecondPage(SecondPage(self.0)))),
            ],
        )
    }

    pub fn view(&self) -> (r: PageView)
        ensures
            r@ == self.screen(),
    {
        let text = label_with_number("First page (number is ", self.0, ")");
        let increment = button("Increment", Message::from(FirstPageMessage::IncrementButton));
        let forward = button("Go forward", Message::SwitchPage(App::SecondPage(SecondPage(self.0))));
        let buttons: Vec<Button> = vec![increment, forward];
        let r = PageView { text, buttons };
        assert(r@.1 =~= self.screen().1);
        r
    }

    pub fn update(&mut self, message: FirstPageMessage)
        ensures
            *final(self) == old(self).step(message),
    {
        match message {
            FirstPageMessage::IncrementButton => {
                if self.0 < u8::MAX {
                    self.0 = self.0 + 1;
                }
            },
        }
    }
}

impl From<FirstPageMessage> for Message {
    fn from(message: FirstPageMessage) -> (r: Message)
        ensures
            r == Message::FirstPage(message),
    {
        Message::FirstPage(message)
    }
}

impl vstd::std_specs::convert::FromSpecImpl<FirstPageMessage> for Message {
    open spec fn obeys_from_spec() -> bool {
        true
    }

    open spec fn from_spec(message: FirstPageMessage) -> Message {
        Message::FirstPage(message)
    }
}

} // verus!
