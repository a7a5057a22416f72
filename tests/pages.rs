use two_page::{App, FirstPage, FirstPageMessage, Message, PageView, SecondPage};

fn increment() -> Message {
    Message::FirstPage(FirstPageMessage::IncrementButton)
}

fn deliver(app: &mut App, message: Message) {
    assert!(app.routes(&message), "misrouted message {message:?} for {app:?}");
    app.update(message);
}

fn captions(view: &PageView) -> Vec<String> {
    view.buttons.iter().map(|b| b.label.clone()).collect()
}

#[test]
fn starts_on_first_page_with_one() {
    assert_eq!(App::new(), App::FirstPage(FirstPage(1)));
}

#[test]
fn increment_adds_one_on_first_page() {
    for n in [0u8, 1, 7, 200, 254] {
        let mut app = App::FirstPage(FirstPage(n));
        deliver(&mut app, increment());
        assert_eq!(app, App::FirstPage(FirstPage(n + 1)));
    }
}

#[test]
fn increment_saturates_at_largest_counter() {
    let mut app = App::FirstPage(FirstPage(u8::MAX));
    deliver(&mut app, increment());
    assert_eq!(app, App::FirstPage(FirstPage(u8::MAX)));

    let mut page = FirstPage(u8::MAX);
    page.update(FirstPageMessage::IncrementButton);
    assert_eq!(page, FirstPage(255));
}

#[test]
fn switch_to_second_keeps_value_from_any_state() {
    let states = [
        App::FirstPage(FirstPage(1)),
        App::FirstPage(FirstPage(255)),
        App::SecondPage(SecondPage(9)),
    ];
    for state in states {
        for n in [0u8, 3, 255] {
            let mut app = state;
            deliver(&mut app, Message::SwitchPage(App::SecondPage(SecondPage(n))));
            assert_eq!(app, App::SecondPage(SecondPage(n)));
        }
    }
}

#[test]
fn switch_to_first_one_discards_counter() {
    for state in [App::FirstPage(FirstPage(42)), App::SecondPage(SecondPage(42))] {
        let mut app = state;
        deliver(&mut app, Message::SwitchPage(App::FirstPage(FirstPage(1))));
        assert_eq!(app, App::FirstPage(FirstPage(1)));
    }
}

#[test]
fn increment_on_second_page_is_misrouted() {
    for n in [0u8, 5, 255] {
        let app = App::SecondPage(SecondPage(n));
        assert!(!app.routes(&increment()));
    }
    assert!(App::FirstPage(FirstPage(5)).routes(&increment()));
    assert!(App::SecondPage(SecondPage(5)).routes(&Message::SwitchPage(App::new())));
}

#[test]
fn scenario_three_increments() {
    let mut app = App::new();
    for _ in 0..3 {
        deliver(&mut app, increment());
    }
    assert_eq!(app, App::FirstPage(FirstPage(4)));
}

#[test]
fn scenario_go_forward_after_two_increments() {
    let mut app = App::new();
    deliver(&mut app, increment());
    deliver(&mut app, increment());
    let forward = app.view().buttons[1].on_press;
    assert_eq!(forward, Message::SwitchPage(App::SecondPage(SecondPage(3))));
    deliver(&mut app, forward);
    assert_eq!(app, App::SecondPage(SecondPage(3)));
}

#[test]
fn scenario_go_back_resets_to_one() {
    let mut app = App::SecondPage(SecondPage(5));
    let view = app.view();
    assert_eq!(captions(&view), vec!["Go back".to_string()]);
    let back = view.buttons[0].on_press;
    deliver(&mut app, back);
    assert_eq!(app, App::FirstPage(FirstPage(1)));
    assert_ne!(app, App::FirstPage(FirstPage(5)));
}

#[test]
fn view_is_the_same_when_taken_twice() {
    for app in [App::new(), App::FirstPage(FirstPage(77)), App::SecondPage(SecondPage(200))] {
        assert_eq!(app.view(), app.view());
    }
}

#[test]
fn first_page_view_shows_counter_and_buttons() {
    let view = FirstPage(42).view();
    assert_eq!(view.text, "First page (number is 42)");
    assert_eq!(captions(&view), vec!["Increment".to_string(), "Go forward".to_string()]);
    assert_eq!(view.buttons[0].on_press, increment());
    assert_eq!(view.buttons[1].on_press, Message::SwitchPage(App::SecondPage(SecondPage(42))));
    assert_eq!(App::FirstPage(FirstPage(42)).view(), view);
}

#[test]
fn second_page_view_shows_value() {
    assert_eq!(SecondPage(0).view().text, "Second page, number is 0");
    assert_eq!(SecondPage(255).view().text, "Second page, number is 255");
    assert_eq!(
        SecondPage(8).view().buttons[0].on_press,
        Message::SwitchPage(App::FirstPage(FirstPage(1)))
    );
}

#[test]
fn number_labels_are_decimal() {
    assert_eq!(two_page::view::label_with_number("n=", 0, "."), "n=0.");
    assert_eq!(two_page::view::label_with_number("", 9, ""), "9");
    assert_eq!(two_page::view::label_with_number("", 10, ""), "10");
    assert_eq!(two_page::view::label_with_number("<", 105, ">"), "<105>");
}

#[test]
fn first_page_message_converts_into_message() {
    assert_eq!(Message::from(FirstPageMessage::IncrementButton), increment());
}

#[test]
fn title_is_fixed() {
    assert_eq!(App::new().title(), "Two page app");
    assert_eq!(App::SecondPage(SecondPage(3)).title(), "Two page app");
}
