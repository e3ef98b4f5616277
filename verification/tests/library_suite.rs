use worker_pool::boxes::{List, MyBox};
use worker_pool::cacher::{workout_plan, Cacher, WorkoutPlan};
use worker_pool::coin::{plus_one, value_in_cents, Coin, UsState};
use worker_pool::game::{evaluate_guess, GuessOutcome, GuessingGame};
use worker_pool::generics::{largest, largest_char, largest_i32, ImportantExcerpt, Point3, Point4};
use worker_pool::http::{is_root_request, page_filename, starts_with, status_line};
use worker_pool::post::Post;
use worker_pool::screen::{Button, Draw, Screen};
use worker_pool::summary::{Summary, Tweet};
use worker_pool::text::{calculate_length, change, first_word, longest, no_dangle};
use worker_pool::user::build_user;

#[test]
fn coin_values() {
    assert_eq!(value_in_cents(Coin::Penny), 1);
    assert_eq!(value_in_cents(Coin::Nickel), 5);
    assert_eq!(value_in_cents(Coin::Dime), 10);
    assert_eq!(value_in_cents(Coin::Quarter(UsState::Alaska)), 25);
    assert_eq!(value_in_cents(Coin::Quarter(UsState::Alabama)), 25);
}

#[test]
fn plus_one_on_some_and_none() {
    assert_eq!(plus_one(Some(5)), Some(6));
    assert_eq!(plus_one(None), None);
}

#[test]
fn largest_of_each_kind() {
    let number_list = vec![34, 50, 25, 100, 65];
    assert_eq!(largest_i32(&number_list), 100);
    assert_eq!(largest(&number_list), 100);

    let char_list = vec!['y', 'm', 'a', 'q'];
    assert_eq!(largest_char(&char_list), 'y');
    assert_eq!(largest(&char_list), 'y');
}

#[test]
fn points_mix_and_tell() {
    let p = Point3 { x: 5, y: 10 };
    assert_eq!(*p.x(), 5);

    let p1 = Point4 { x: 5, y: 10u8 };
    let p2 = Point4 { x: "Hello", y: 'c' };
    let p3 = p1.mixup(p2);
    assert_eq!(p3.x, 5);
    assert_eq!(p3.y, 'c');
}

#[test]
fn excerpt_level_and_part() {
    let novel = String::from("Call me Ishmael. Some years ago...");
    let first_sentence = novel.split('.').next().expect("Could not find a '.'");
    let excerpt = ImportantExcerpt { part: first_sentence };
    assert_eq!(excerpt.level(), 3);
    assert_eq!(
        excerpt.announce_and_return_part("Today is someone's birthday!"),
        "Call me Ishmael"
    );
}

#[test]
fn text_helpers() {
    let s = String::from("hello");
    assert_eq!(calculate_length(&s), 5);

    let mut grows = String::from("hello");
    change(&mut grows);
    assert_eq!(grows, "hello, world");

    assert_eq!(no_dangle(), "hello");

    assert_eq!(longest("abcd", "xyz"), "abcd");
    assert_eq!(longest("ab", "xyz"), "xyz");
    assert_eq!(longest("ab", "xy"), "xy");
}

#[test]
fn first_word_stops_at_the_first_space() {
    assert_eq!(first_word("hello world"), "hello");
    assert_eq!(first_word("hello"), "hello");
    assert_eq!(first_word(" leading"), "");
    assert_eq!(first_word(""), "");
}

#[test]
fn cacher_runs_the_calculation_once() {
    let mut cacher = Cacher::new(|num: u32| num + 1);
    assert_eq!(cacher.value(1), 2);
    // The first result is cached and answers every later argument.
    assert_eq!(cacher.value(10), 2);
}

#[test]
fn workout_plans() {
    assert_eq!(workout_plan(10, 7), WorkoutPlan::Exercises);
    assert_eq!(workout_plan(24, 3), WorkoutPlan::Exercises);
    assert_eq!(workout_plan(25, 3), WorkoutPlan::TakeBreak);
    assert_eq!(workout_plan(25, 7), WorkoutPlan::Run);
}

#[test]
fn guess_outcomes_are_exact() {
    assert_eq!(evaluate_guess(10, 50), GuessOutcome::TooSmall);
    assert_eq!(evaluate_guess(90, 50), GuessOutcome::TooBig);
    assert_eq!(evaluate_guess(50, 50), GuessOutcome::Correct);
}

#[test]
fn guessing_game_has_exactly_one_correct_answer_in_range() {
    let game = GuessingGame::new();
    let mut correct = 0usize;
    for guess in 1..=100u32 {
        if game.check(guess) == GuessOutcome::Correct {
            correct += 1;
        }
    }
    assert_eq!(correct, 1);
    // Outside the allowed range every guess misses.
    assert_eq!(game.check(0), GuessOutcome::TooSmall);
    assert_eq!(game.check(101), GuessOutcome::TooBig);
}

#[test]
fn root_request_is_recognized() {
    let request = b"GET / HTTP/1.1\r\nHost: localhost\r\n\r\n";
    assert!(is_root_request(request));
    let other = b"GET /other HTTP/1.1\r\n";
    assert!(!is_root_request(other));
    let short = b"GET";
    assert!(!is_root_request(short));
}

#[test]
fn routing_picks_status_and_page() {
    assert_eq!(status_line(true), "HTTP/1.1 200 OK");
    assert_eq!(status_line(false), "HTTP/1.1 404 NOT FOUND");
    assert_eq!(page_filename(true), "hello.html");
    assert_eq!(page_filename(false), "404.html");
}

#[test]
fn starts_with_on_bytes() {
    assert!(starts_with(b"abcdef", b"abc"));
    assert!(starts_with(b"abc", b"abc"));
    assert!(!starts_with(b"ab", b"abc"));
    assert!(!starts_with(b"abd", b"abc"));
    assert!(starts_with(b"anything", b""));
}

#[test]
fn tweet_summary() {
    let tweet = Tweet {
        username: String::from("horse_ebooks"),
        content: String::from("of course, as you probably already know, people"),
        reply: false,
        retweet: false,
    };
    assert_eq!(tweet.summarize_author(), "@horse_ebooks");
    assert_eq!(tweet.summarize(), "(Read more from @horse_ebooks...)");
}

#[test]
fn post_accumulates_text() {
    let mut post = Post::new();
    assert_eq!(post.content(), "");
    post.add_text("I ate a salad for lunch today");
    assert_eq!(post.content(), "I ate a salad for lunch today");
    post.add_text(", and it was delicious");
    assert_eq!(post.content(), "I ate a salad for lunch today, and it was delicious");
}

struct Countdown {
    label: String,
}

impl Draw for Countdown {
    fn draw(&self) {
        assert!(!self.label.is_empty());
    }
}

#[test]
fn screen_runs_every_component() {
    let screen = Screen {
        components: vec![
            Box::new(Button { width: 50, height: 10, label: String::from("OK") }),
            Box::new(Countdown { label: String::from("3, 2, 1") }),
        ],
    };
    screen.run();
}

#[test]
fn built_user_is_active() {
    let user = build_user(
        String::from("someone@example.com"),
        String::from("someusername123"),
    );
    assert_eq!(user.email, "someone@example.com");
    assert_eq!(user.username, "someusername123");
    assert!(user.active);
    assert_eq!(user.sign_in_count, 1);
}

#[test]
fn my_box_and_list_tail() {
    let b = MyBox::new(5);
    assert_eq!(*b.get(), 5);
    assert_eq!(*b, 5);

    let list = List::Cons(5, Box::new(List::Cons(10, Box::new(List::Nil))));
    let tail = list.tail().expect("a cons cell has a tail");
    assert!(matches!(**tail, List::Cons(10, _)));
    assert!(List::Nil.tail().is_none());
}
