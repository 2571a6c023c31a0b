use shuttlings_cch24::days::day_2::{dest, key_};
use shuttlings_cch24::days::day_23::{ornament, present, star, Color, Error, State};
use shuttlings_cch24::days::day_9::{admits, saturating_dec_target, saturating_inc_target};
use shuttlings_cch24::days::{get_router, Endpoint, Method};

#[test]
fn dest_wraps_each_octet() {
    assert_eq!(dest([10, 0, 0, 0], [1, 2, 3, 255]), [11, 2, 3, 255]);
    assert_eq!(dest([128, 128, 33, 255], [255, 0, 200, 1]), [127, 128, 233, 0]);
}

#[test]
fn key_wraps_each_octet() {
    assert_eq!(key_([10, 0, 0, 0], [11, 2, 3, 255]), [1, 2, 3, 255]);
    assert_eq!(key_([128, 128, 33, 255], [127, 128, 233, 0]), [255, 0, 200, 1]);
}

#[test]
fn counter_targets_saturate() {
    assert_eq!(saturating_dec_target(5), Some(4));
    assert_eq!(saturating_dec_target(0), None);
    assert_eq!(saturating_inc_target(4, 5), Some(5));
    assert_eq!(saturating_inc_target(5, 5), None);
    assert_eq!(saturating_inc_target(u64::MAX, u64::MAX), None);
    assert!(admits(1));
    assert!(!admits(0));
}

#[test]
fn colors_cycle() {
    assert_eq!(Color::Red.next(), Color::Blue);
    assert_eq!(Color::Blue.next(), Color::Purple);
    assert_eq!(Color::Purple.next(), Color::Red);
    assert_eq!(Color::from_name("purple"), Some(Color::Purple));
    assert_eq!(Color::from_name("Red"), None);
    assert_eq!(Color::Blue.name(), "blue");
}

#[test]
fn states_switch() {
    assert_eq!(State::On.next(), State::Off);
    assert_eq!(State::Off.next(), State::On);
    assert_eq!(State::from_name("off"), Some(State::Off));
    assert_eq!(State::from_name(""), None);
    assert_eq!(State::On.name(), "on");
}

#[test]
fn present_links_to_next_color() {
    let html = present("red").unwrap();
    assert_eq!(
        html.text,
        "<div\n            class=\"present red\"\n            hx-get=\"/23/present/blue\"\n            hx-swap=\"outerHTML\"\n        >\n            <div class=\"ribbon\"></div>\n            <div class=\"ribbon\"></div>\n            <div class=\"ribbon\"></div>\n            <div class=\"ribbon\"></div>\n        </div>"
    );
    assert!(matches!(present("green"), Err(Error::Invalid)));
}

#[test]
fn ornament_escapes_its_name() {
    let html = ornament("on", "a\"<b>&").unwrap();
    assert_eq!(
        html.text,
        "<div\n            class=\"ornament on\"\n            id=\"ornamenta&quot;&lt;b&gt;&amp;\"\n            hx-trigger=\"load delay:2s once\"\n            hx-get=\"/23/ornament/off/a&quot;&lt;b&gt;&amp;\"\n            hx-swap=\"outerHTML\"\n        ></div>"
    );
    let html = ornament("off", "7").unwrap();
    assert_eq!(
        html.text,
        "<div\n            class=\"ornament\"\n            id=\"ornament7\"\n            hx-trigger=\"load delay:2s once\"\n            hx-get=\"/23/ornament/on/7\"\n            hx-swap=\"outerHTML\"\n        ></div>"
    );
    assert!(matches!(ornament("dim", "1"), Err(Error::Invalid)));
    assert_eq!(Error::Invalid.message(), "invalid");
    assert_eq!(Error::Invalid.status_code(), 418);
}

#[test]
fn star_is_lit() {
    assert_eq!(star().text, "<div id=\"star\" class=\"lit\"></div>");
}

#[test]
fn route_table_lists_every_day() {
    let routes = get_router();
    assert_eq!(routes.len(), 18);
    assert_eq!(routes[0], Endpoint::Seek);
    assert_eq!(routes[0].path(), "/-1/seek");
    let place = routes.iter().find(|e| **e == Endpoint::Place).unwrap();
    assert_eq!(place.path(), "/12/place/{team}/{column}");
    assert_eq!(place.method(), Method::Post);
    assert_eq!(Endpoint::Remove.method(), Method::Delete);
    assert_eq!(Endpoint::Undo.method(), Method::Put);
    assert_eq!(shuttlings_cch24::days::day_12::get_router().len(), 3);
}
