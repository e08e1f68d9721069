use rust_book::advanced::{add_one as plus, do_twice, outline, Animal, Dog, MyBox, Point};
use rust_book::art::{add_one, mix, PrimaryColor, SecondaryColor};
use rust_book::closures::{shoes_in_size, Inventory, ShirtColor, Shoe};
use rust_book::coins::{five, plus_one, quarter_state, value_in_cents, Coin, UsState};
use rust_book::dining;
use rust_book::garden::Asparagus;
use rust_book::guess::{compare, secret_number, Guess};
use rust_book::restaurant::back_of_house::{fix_incorrect_order, Appetizer, Breakfast};
use rust_book::restaurant::{eat_at_restaurant, hosting, serving};
use rust_book::shapes::{build_user, Rectangle};
use rust_book::summary::{largest, returns_summarizable, NewsArticle, Pair, PointDiff, Summary};
use std::cmp::Ordering;

#[test]
fn giveaway_prefers_the_user_then_the_stock() {
    let store = Inventory { shirts: vec![ShirtColor::Blue, ShirtColor::Red, ShirtColor::Blue] };
    assert_eq!(store.giveaway(Some(ShirtColor::Red)), ShirtColor::Red);
    assert_eq!(store.giveaway(None), ShirtColor::Blue);
    let reds = Inventory { shirts: vec![ShirtColor::Red, ShirtColor::Red, ShirtColor::Blue] };
    assert_eq!(reds.most_stocked(), ShirtColor::Red);
    let tie = Inventory { shirts: vec![ShirtColor::Red, ShirtColor::Blue] };
    assert_eq!(tie.most_stocked(), ShirtColor::Blue);
    assert_eq!(Inventory { shirts: vec![] }.most_stocked(), ShirtColor::Blue);
}

#[test]
fn shoes_of_one_size_keep_their_order() {
    let shoes = vec![
        Shoe { size: 10, style: String::from("sneaker") },
        Shoe { size: 13, style: String::from("sandal") },
        Shoe { size: 10, style: String::from("boot") },
    ];
    assert_eq!(
        shoes_in_size(shoes, 10),
        vec![
            Shoe { size: 10, style: String::from("sneaker") },
            Shoe { size: 10, style: String::from("boot") },
        ]
    );
    assert_eq!(shoes_in_size(vec![], 10), vec![]);
}

#[test]
fn rectangles() {
    let rect1 = Rectangle { width: 30, height: 50 };
    let rect2 = Rectangle { width: 60, height: 50 };
    assert_eq!(rect1.area(), 1500);
    assert!(rect1.valid());
    assert!(!Rectangle { width: 0, height: 3 }.valid());
    assert!(!rect2.can_hold(&rect1));
    assert!(Rectangle { width: 31, height: 51 }.can_hold(&rect1));
    assert_eq!(Rectangle::square(3), Rectangle { width: 3, height: 3 });
}

#[test]
fn new_users_are_active() {
    let u = build_user(String::from("user2@example.com"), String::from("user2"));
    assert!(u.active);
    assert_eq!(u.email, "user2@example.com");
    assert_eq!(u.username, "user2");
    assert_eq!(u.sign_in_count, 1);
}

#[test]
fn coins_and_options() {
    assert_eq!(value_in_cents(Coin::Penny), 1);
    assert_eq!(value_in_cents(Coin::Nickel), 5);
    assert_eq!(value_in_cents(Coin::Dime), 10);
    assert_eq!(value_in_cents(Coin::Quarter(UsState::Alaska)), 25);
    assert_eq!(value_in_cents(Coin::Dollar), 100);
    assert_eq!(quarter_state(Coin::Quarter(UsState::Alabama)), Some(UsState::Alabama));
    assert_eq!(quarter_state(Coin::Dime), None);
    assert_eq!(plus_one(Some(5)), Some(6));
    assert_eq!(plus_one(None), None);
    assert_eq!(five(), 5);
}

#[test]
fn guesses() {
    let g = Guess::new(43);
    assert_eq!(g.value(), 43);
    assert!(Guess::checked(0).is_none());
    assert!(Guess::checked(101).is_none());
    assert_eq!(Guess::checked(100).map(|g| g.value()), Some(100));
    assert_eq!(compare(&g, 50), Ordering::Less);
    assert_eq!(compare(&g, 10), Ordering::Greater);
    assert_eq!(compare(&g, 43), Ordering::Equal);
    for _ in 0..200 {
        let s = secret_number();
        assert!((1..=100).contains(&s));
    }
}

#[test]
fn colors_and_numbers() {
    assert_eq!(add_one(5), 6);
    assert_eq!(mix(PrimaryColor::Red, PrimaryColor::Yellow), SecondaryColor::Orange);
    assert_eq!(mix(PrimaryColor::Blue, PrimaryColor::Yellow), SecondaryColor::Orange);
}

#[test]
fn summaries() {
    let tweet = returns_summarizable();
    assert_eq!(tweet.username, "horse_ebooks");
    assert_eq!(tweet.summarize_author(), "@horse_ebooks");
    assert_eq!(tweet.summarize(), "(Read more from @horse_ebooks...)");
    let article = NewsArticle {
        headline: String::from("Penguins win the Stanley Cup Championship!"),
        location: String::from("Pittsburgh, PA, USA"),
        author: String::from("Iceburgh"),
        content: String::from("The Pittsburgh Penguins once again are the best hockey team in the NHL."),
    };
    assert_eq!(
        article.summarize(),
        "Penguins win the Stanley Cup Championship!, by Iceburgh (Pittsburgh, PA, USA)"
    );
    assert_eq!(article.summarize_author(), "@Iceburgh");
}

#[test]
fn generic_helpers() {
    assert_eq!(*largest(&[34, 50, 25, 100, 65]), 100);
    assert_eq!(*largest(&[-3]), -3);
    let p = Pair::new(3i64, 7);
    assert!(!p.x_is_largest());
    assert!(Pair::new(7i64, 7).x_is_largest());
    let p3 = PointDiff { x: 5, y: 10.4 }.mixup(PointDiff { x: "Hello", y: 'c' });
    assert_eq!(p3.x, 5);
    assert_eq!(p3.y, 'c');
    let pt = rust_book::summary::Point { x: 5, y: 10 };
    assert_eq!(*pt.x(), 5);
}

#[test]
fn advanced_features() {
    assert_eq!(do_twice(plus, 5), 12);
    assert_eq!(Point { x: 1, y: 0 } + Point { x: 2, y: 3 }, Point { x: 3, y: 3 });
    assert_eq!(Point { x: 1, y: 0 }.to_text(), "(1, 0)");
    assert_eq!(Point { x: -12, y: i32::MIN }.to_text(), "(-12, -2147483648)");
    assert_eq!(<Dog as Animal>::baby_name(), "puppy");
    let b = MyBox::new(5);
    assert_eq!(5, *b);
    let name = MyBox::new(String::from("Rust"));
    assert_eq!(name.len(), 4);
    assert_eq!(
        outline("(1, 0)"),
        vec!["**********", "*        *", "* (1, 0) *", "*        *", "**********"]
    );
}

#[test]
fn restaurant_visit() {
    let meal = eat_at_restaurant();
    assert_eq!(meal.toast, "Wheat");
    let mut b = Breakfast::summer("Rye");
    assert_eq!(b.toast, "Rye");
    b.change_toast("Sourdough");
    assert_eq!(b.toast, "Sourdough");
    hosting::add_to_waitlist();
    hosting::seat_at_table();
    serving::take_order();
    serving::serve_order();
    serving::take_payment();
    fix_incorrect_order();
    dining::eat_at_restaurant();
    assert_ne!(Appetizer::Soup, Appetizer::Salad);
    assert_eq!(Asparagus {}, Asparagus {});
}
