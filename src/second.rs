use vstd::prelude::*;

use crate::first::FirstPage;
use crate::view::{button, label_with_number, Button, PageModel, PageView};
use crate::{App, Message};

verus! {

/// The second page: it shows the counter value it was opened with.
#[derive(Debug, Clone, Copy, PartialEq, Eq, Structural)]
pub struct SecondPage(pub u8);

impl SecondPage {
    /// What the page shows: the value it holds, and a button that goes back
    /// to a first page whose counter starts over at 1.
    pub open spec fn screen(self) -> PageModel {
        (
            "Second page, number is "@ + crate::view::decimal(self.0 as nat),
            seq![("Go back"@, Message::SwitchPage(App::FirstPage(FirstPage(1))))],
        )
    }

    pub fn view(&self) -> (r: PageView)
        ensures
            r@ == self.screen(),
    {
        let text = label_with_number("Second page, number is ", self.0, "");
        let back = button("Go back", Message::SwitchPage(App::FirstPage(FirstPage(1))));
        let buttons: Vec<Button> = vec![back];
        let r = PageView { text, buttons };
        proof {
            reveal_strlit("");
        }
        assert(r@.0 =~= self.screen().0);
        assert(r@.1 =~= self.screen().1);
        r
    }
}

} // verus!
