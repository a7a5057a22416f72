use vstd::prelude::*;

use crate::Message;

verus! {

/// A control of a page: its caption and the message it raises when pressed.
#[derive(Debug, PartialEq, Eq)]
pub struct Button {
    pub label: String,
    pub on_press: Message,
}

/// A declarative description of one page: a line of text above a column of
/// buttons. It is what a GUI runtime draws; it holds no behaviour of its own.
#[derive(Debug, PartialEq, Eq)]
pub struct PageView {
    pub text: String,
    pub buttons: Vec<Button>,
}

/// The mathematical form of a page description: its text, and each button as
/// its caption paired with its message, top to bottom.
pub type PageModel = (Seq<char>, Seq<(Seq<char>, Message)>);

impl View for Button {
    type V = (Seq<char>, Message);

    open spec fn view(&self) -> (Seq<char>, Message) {
        (self.label@, self.on_press)
    }
}

impl View for PageView {
    type V = PageModel;

    open spec fn view(&self) -> PageModel {
        (self.text@, self.buttons@.map_values(|b: Button| b@))
    }
}

/// The character of a decimal digit.
pub open spec fn digit_char(d: nat) -> char
    recommends
        d < 10,
{
    seq!['0', '1', '2', '3', '4', '5', '6', '7', '8', '9'][d as int]
}

/// The decimal notation of a natural number, most significant digit first,
/// without leading zeros.
pub open spec fn decimal(n: nat) -> Seq<char>
    decreases n,
{
    if n < 10 {
        seq![digit_char(n)]
    } else {
        decimal(n / 10).push(digit_char(n % 10))
    }
}

/// Relies on `u8`'s `Display` (through `ToString::to_string`): it writes an
/// unsigned integer in decimal, without sign or leading zeros.
#[verifier::external_body]
fn decimal_string(n: u8) -> (r: String)
    ensures
        r@ == decimal(n as nat),
{
    n.to_string()
}

/// Text made of a prefix, the decimal notation of `n`, and a suffix.
pub fn label_with_number(prefix: &str, n: u8, suffix: &str) -> (r: String)
    ensures
        r@ == prefix@ + decimal(n as nat) + suffix@,
{
    let digits = decimal_string(n);
    String::from_str(prefix).concat(digits.as_str()).concat(suffix)
}

/// A button with the given caption and message.
pub fn button(label: &str, on_press: Message) -> (r: Button)
    ensures
        r@ == (label@, on_press),
{
    Button { label: String::from_str(label), on_press }
}

} // verus!
