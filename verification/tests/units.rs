use memo_cache::arith::{mult_numbers, sub_numbers};
use memo_cache::cafe::Breakfast;
use memo_cache::generics::{max, Point};
use memo_cache::ip::{plus_one, value_in_cents, Coin, IpAddrKind, UsState};
use memo_cache::lifetimes::{longest, longest2};
use memo_cache::mybox::MyBox;
use memo_cache::ownership::{cal_len, change, gives_ownership, take_ownership_and_gives_back};
use memo_cache::rectangle::Rectangle;
use memo_cache::user::build_user;
use memo_cache::rest::bed::{Coin as BedCoin, Sleep};
use memo_cache::summary::{returns_summarizable, NewsArticle, Pair, Summary, Tweet};

#[test]
fn sub_numbers_bumps_small_results() {
    assert_eq!(sub_numbers(28, 5), 23);
    assert_eq!(sub_numbers(8, 5), 13);
    assert_eq!(sub_numbers(10, 0), 10);
    assert_eq!(sub_numbers(0, 5), 5);
}

#[test]
fn mult_numbers_multiplies() {
    assert_eq!(mult_numbers(8, 5), 40);
    assert_eq!(mult_numbers(-3, 7), -21);
}

#[test]
fn coin_values() {
    assert_eq!(value_in_cents(Coin::Penny), 1);
    assert_eq!(value_in_cents(Coin::Nickel), 5);
    assert_eq!(value_in_cents(Coin::Dime(UsState::NewYork)), 10);
    assert_eq!(value_in_cents(Coin::Dime(UsState::Alaska)), 10);
}

#[test]
fn plus_one_steps_or_resets() {
    assert_eq!(plus_one(Some(5)), Some(6));
    assert_eq!(plus_one(None), Some(0));
}

#[test]
fn new_v6_wraps_the_address() {
    let kind = IpAddrKind::new_v6(String::from("ip address new v6 address"));
    assert!(matches!(kind, IpAddrKind::V6(address) if address == "ip address new v6 address"));
}

#[test]
fn max_finds_the_largest() {
    assert_eq!(max(&vec![1, 2, 3, 4, 5]), 5);
    assert_eq!(max(&vec![5, 4, 3, 2, 1]), 5);
    assert_eq!(max(&vec![-7, -3, -9]), -3);
    assert_eq!(max(&vec![2, 2, 2]), 2);
    assert_eq!(max(&vec![9]), 9);
}

#[test]
fn point_accessors_and_mixup() {
    let point1 = Point { x: 10, y: 3.2, z: 0 };
    let point3 = Point { x: -1.5, y: 10, z: 3 };
    assert_eq!(*point3.x(), -1.5);
    let mixed = point3.mixup(point1);
    assert_eq!(mixed.x, -1.5);
    assert_eq!(mixed.y, 3.2);
    assert_eq!(mixed.z, 0);
}

#[test]
fn longest_prefers_more_bytes() {
    assert_eq!(longest("Hello, world! 1", "Hello!"), "Hello, world! 1");
    assert_eq!(longest("Hi", "Hello, Everyone!"), "Hello, Everyone!");
    assert_eq!(longest("tie", "..."), "...");
    assert_eq!(longest2("first", "second"), "first");
}

#[test]
fn ownership_round_trips() {
    assert_eq!(gives_ownership(), "got new ownership");
    let s = String::from("taking my ownership");
    assert_eq!(take_ownership_and_gives_back(s), "taking my ownership");
    let (s2, len) = cal_len(String::from("full string"));
    assert_eq!(s2, "full string");
    assert_eq!(len, 11);
    let mut s3 = String::from("mutable reference");
    change(&mut s3);
    assert_eq!(s3, "mutable reference, changed");
}

#[test]
fn rectangle_area_and_squaring() {
    let mut rect = Rectangle { width: 10, height: 20 };
    assert_eq!(rect.area(), 200);
    rect.make_square();
    assert_eq!(rect.width, 20);
    assert_eq!(rect.height, 20);
    let square = Rectangle::make_new_square(10);
    assert_eq!(square.width, 10);
    assert_eq!(square.height, 10);
    assert_eq!(square.area(), 100);
}

#[test]
fn build_user_starts_inactive() {
    let user = build_user(String::from("earth@example.com"), String::from("newUser"));
    assert_eq!(user.email, "earth@example.com");
    assert_eq!(user.username, "newUser");
    assert_eq!(user.sign_in_count, 0);
    assert!(!user.active);
}

#[test]
fn breakfast_toast_is_the_guests() {
    let meal = Breakfast::summer("Wheat");
    assert_eq!(meal.toast, "Wheat");
    memo_cache::eat_breakfast();
}

#[test]
fn restaurant_walkthrough() {
    memo_cache::front_of_house::hosting::add_to_waitlist();
    memo_cache::bbq::hosting::add_to_waitlist();
    memo_cache::order();
    memo_cache::eat_at_BBQ();
    memo_cache::fk_main();
    let _sleep = Sleep::new(3, String::from("ok"));
    let _coin = BedCoin::Penny;
}

#[test]
fn summaries_read_as_expected() {
    let tweet = Tweet {
        username: String::from("horse_ebooks"),
        content: String::from("of course, as you probably already know, people"),
        reply: false,
        retweet: false,
    };
    assert_eq!(tweet.summarize_author(), "@horse_ebooks");
    assert_eq!(tweet.summarize(), "horse_ebooks: of course, as you probably already know, people");

    let article = NewsArticle {
        author: String::from("John Smith"),
        headline: String::from("The Sky is falling"),
        content: String::from("The sky is not actually falling"),
        location: String::from("New York"),
    };
    assert_eq!(article.summarize_author(), "Author: John Smith");
    assert_eq!(article.summarize(), "(Read more from Author: John Smith...)");

    let summarizable = returns_summarizable();
    assert_eq!(summarizable.summarize(), "horse_ebooks: of course, as you probably already know, people");
}

#[test]
fn pair_and_box_hold_their_values() {
    let pair = Pair::new(1, 2);
    assert_eq!(pair.x, 1);
    assert_eq!(pair.y, 2);
    let boxed = MyBox::new(5);
    assert_eq!(*boxed.deref(), 5);
    assert_eq!(boxed.0, 5);
}
