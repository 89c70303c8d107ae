use cronueue::config::{Behavior, Config, Erracy};
use cronueue::cookie::Cookie;
use cronueue::proxy::{Proxy, MANIFEST, USER_AGENT};
use cronueue::utils::{
    coll_name_for, make_get_post_url, rand_num_wait, today_date_coll_name, DATE_FORMAT,
    REMAINDER_STR,
};

fn behavior(wait: Erracy, min: u8, max: u8) -> Behavior {
    Behavior {
        erratic_scroll: Erracy::Normal,
        erratic_wait: wait,
        erratic_reload: Erracy::Normal,
        wait_rng_min: min,
        wait_rng_max: max,
    }
}

#[test]
fn keystroke_wait_stays_in_its_range() {
    let mut seen_low = false;
    let mut seen_high = false;
    for _ in 0..2000 {
        let n = rand_num_wait();
        assert!((120..255).contains(&n));
        seen_low |= n < 180;
        seen_high |= n >= 180;
    }
    assert!(seen_low && seen_high);
}

#[test]
fn waiting_time_follows_the_margin() {
    for _ in 0..500 {
        let n = behavior(Erracy::Normal, 50, 52).run_erratic_wait();
        assert!((50..52).contains(&n));
        let e = behavior(Erracy::Erratic, 50, 52).run_erratic_wait();
        assert!((45..57).contains(&e));
        let s = behavior(Erracy::SuperErratic, 50, 52).run_erratic_wait();
        assert!((40..62).contains(&s));
    }
    assert_eq!(behavior(Erracy::Normal, 7, 8).run_erratic_wait(), 7);
    assert_eq!(behavior(Erracy::Normal, 254, 255).run_erratic_wait(), 254);
}

#[test]
fn waiting_range_must_fit() {
    assert!(behavior(Erracy::Normal, 0, 255).can_wait());
    assert!(!behavior(Erracy::Normal, 5, 5).can_wait());
    assert!(!behavior(Erracy::Normal, 6, 5).can_wait());
    assert!(behavior(Erracy::Erratic, 5, 250).can_wait());
    assert!(!behavior(Erracy::Erratic, 4, 250).can_wait());
    assert!(!behavior(Erracy::Erratic, 5, 251).can_wait());
    assert!(behavior(Erracy::Erratic, 100, 92).can_wait());
    assert!(!behavior(Erracy::Erratic, 100, 90).can_wait());
    assert!(behavior(Erracy::SuperErratic, 10, 245).can_wait());
    assert!(!behavior(Erracy::SuperErratic, 9, 245).can_wait());
    assert!(!behavior(Erracy::SuperErratic, 10, 246).can_wait());
}

#[test]
fn scripts_follow_the_scrolling_behaviour() {
    let mut b = behavior(Erracy::Normal, 1, 2);
    b.erratic_reload = Erracy::SuperErratic;
    assert_eq!(
        b.scroll_script(),
        "setInterval(() => { window.scroll(0, Math.random() * window.innerHeight); }, 80000)"
    );
    assert_eq!(b.reload_script(), "setInterval(() => { location.reload(); }, 220000)");
    b.erratic_scroll = Erracy::Erratic;
    assert_eq!(
        b.scroll_script(),
        "setInterval(() => { window.scroll(0, Math.random() * window.innerHeight); }, 40000)"
    );
    assert_eq!(b.reload_script(), "setInterval(() => { location.reload(); }, 120000)");
    b.erratic_scroll = Erracy::SuperErratic;
    assert_eq!(
        b.scroll_script(),
        "setInterval(() => { window.scroll(0, Math.random() * window.innerHeight); }, 10000)"
    );
    assert_eq!(b.reload_script(), "setInterval(() => { location.reload(); }, 60000)");
}

#[test]
fn collection_name_ends_in_posts() {
    assert_eq!(coll_name_for("2022-03-04"), "2022-03-04-posts");
    assert_eq!(coll_name_for(""), "-posts");
    assert_eq!(DATE_FORMAT, "%Y-%m-%d");
    let today = today_date_coll_name();
    assert_eq!(today.len(), 16);
    assert!(today.ends_with("-posts"));
    let date: Vec<char> = today.chars().take(10).collect();
    for (i, c) in date.iter().enumerate() {
        if i == 4 || i == 7 {
            assert_eq!(*c, '-');
        } else {
            assert!(c.is_ascii_digit());
        }
    }
}

#[test]
fn timeline_address() {
    let url = make_get_post_url(String::from("42"), 20, String::from("LINK"));
    let expected = format!(
        "https://twitter.com/i/api/graphql/LINK/UserTweets?variables=%7B%22userId%22%3A%42%22%2C%22count%22%3A20%2C%22{}",
        REMAINDER_STR
    );
    assert_eq!(url, expected);
    assert!(REMAINDER_STR.starts_with("\n        includePromotedContent%22%3Atrue%2C%22"));
    assert!(REMAINDER_STR.ends_with("edit_tweet_api_enabled%22%3Afalse%7D\n    "));
    assert_eq!(REMAINDER_STR.len(), 629);
    let zero = make_get_post_url(String::new(), 0, String::new());
    assert!(zero.starts_with(
        "https://twitter.com/i/api/graphql//UserTweets?variables=%7B%22userId%22%3A%%22%2C%22count%22%3A0%2C%22\n"
    ));
}

#[test]
fn proxy_extension() {
    let proxy = Proxy::new(String::from("1.2.3.4"), String::from("user"), String::from("pw"));
    assert_eq!(proxy.host().as_str(), "1.2.3.4");
    assert_eq!(proxy.username().as_str(), "user");
    assert_eq!(proxy.extension_file(), "1.2.3.4-user.crx");
    assert_eq!(proxy.extension_path(), "./1.2.3.4-user.crx");
    let script = proxy.background_script();
    let expected = format!(
        r#"
        var config = {{
            mode: "fixed_servers",
            rules: {{
            singleProxy: {{
            scheme: "http",
            host: "{}",
            port: parseInt(PROXY_PORT)
            }},
            bypassList: ["foobar.com"]
            }}
            }};
            chrome.proxy.settings.set({{value: config, scope: "regular"}}, function() {{}});
            function callbackFn(details) {{
            return {{
            authCredentials: {{
            username: "{}",
            password: "{}"
            }}
            }};
            }}
            
            chrome.webRequest.onAuthRequired.addListener(
            callbackFn,
            {{urls: ["<all_urls>"]}},
            ['blocking']
            );

        
        "#,
        "1.2.3.4", "user", "pw"
    );
    assert_eq!(script, expected);
    assert!(MANIFEST.contains("\"manifest_version\": 3,"));
    assert!(MANIFEST.starts_with("\n    {\n        \"version\": \"1.0.0\","));
    assert!(USER_AGENT.starts_with("Mozilla/5.0 (Linux; Android 4.4.2; X325\u{2013}Locked"));
    assert!(USER_AGENT.ends_with("Mobile Safari/537.36 TwitterAndroid"));
}

#[test]
fn cookie_defaults() {
    let cookie = Cookie { name: String::from("cookie1"), value: String::from("cookie11"), ..Default::default() };
    assert_eq!(cookie.domain, None);
    assert_eq!(cookie.path, None);
    assert_eq!(cookie.expires, None);
    assert_eq!(cookie.httpOnly, None);
    assert_eq!(cookie.secure, None);
    let config = Config {
        cookies: vec![cookie.clone()],
        behavior: behavior(Erracy::Normal, 1, 2),
        selenium_url: String::from("http://localhost:4444"),
    };
    assert_eq!(config.cookies[0], cookie);
    assert_eq!(config.clone(), config);
}
