use rustboard_api::domain::posts::CreatePostInput;
use rustboard_api::repository::posts::InMemoryPostRepository;
use rustboard_api::routes::post::{default_limit, default_page, ListPostsQuery};
use rustboard_api::routes::posts::{
    effective_limit, format_cursor, list_posts, next_cursor, parse_cursor, ListQuery,
};
use rustboard_api::service::posts::PostService;
use rustboard_api::text::{
    chars_of, format_i64, format_u64, parse_i64, parse_u64, split_once, starts_with, trim,
};
use rustboard_api::time::seconds_of;

#[test]
fn trim_removes_unicode_whitespace() {
    assert_eq!(trim("  a b \n"), "a b");
    assert_eq!(trim("\u{3000}제목\u{a0}"), "제목");
    assert_eq!(trim(" \t\r\n"), "");
    assert_eq!(trim(""), "");
    assert_eq!(trim("x"), "x");
}

#[test]
fn chars_and_prefixes() {
    assert_eq!(chars_of("가a"), vec!['가', 'a']);
    assert!(starts_with("$2b$12$abc", "$2b$"));
    assert!(!starts_with("$2", "$2b$"));
    assert!(starts_with("anything", ""));
}

#[test]
fn integers_print_as_display_does() {
    for n in [0i64, 7, 10, -1, -10, 1234567890, i64::MAX, i64::MIN] {
        assert_eq!(format_i64(n), n.to_string());
        assert_eq!(parse_i64(&format_i64(n)), Some(n));
    }
    for n in [0u64, 9, 100, u64::MAX] {
        assert_eq!(format_u64(n), n.to_string());
        assert_eq!(parse_u64(&format_u64(n)), Some(n));
    }
}

#[test]
fn integers_read_as_from_str_does() {
    for s in [
        "", "+", "-", "12", "+12", "-12", "007", "1_0", " 1", "1 ", "9223372036854775807",
        "9223372036854775808", "-9223372036854775808", "-9223372036854775809", "+-1", "٣",
    ] {
        assert_eq!(parse_i64(s), s.parse::<i64>().ok(), "{s:?}");
    }
    for s in ["", "+", "-1", "+5", "18446744073709551615", "18446744073709551616", "0x1"] {
        assert_eq!(parse_u64(s), s.parse::<u64>().ok(), "{s:?}");
    }
}

#[test]
fn split_once_finds_the_first_separator() {
    assert_eq!(split_once("a_b_c", '_'), Some(("a", "b_c")));
    assert_eq!(split_once("_x", '_'), Some(("", "x")));
    assert_eq!(split_once("abc", '_'), None);
}

#[test]
fn whole_seconds_round_down() {
    assert_eq!(seconds_of(1_500_000), 1);
    assert_eq!(seconds_of(-1), -1);
    assert_eq!(seconds_of(-1_000_000), -1);
    assert_eq!(seconds_of(-1_000_001), -2);
    assert_eq!(seconds_of(i64::MIN), i64::MIN.div_euclid(1_000_000));
}

#[test]
fn instants_from_seconds() {
    assert_eq!(parse_cursor("-3_1"), Some((-3_000_000, 1)));
    assert_eq!(parse_cursor("8000000000000_1"), Some((8_000_000_000_000_000_000, 1)));
    assert_eq!(parse_cursor("9223372036854775807_1"), None);
    assert_eq!(parse_cursor("8210266876799_1"), Some((8_210_266_876_799_000_000, 1)));
    assert_eq!(parse_cursor("8210266876800_1"), None);
    assert_eq!(parse_cursor("-8334601228800_1"), Some((-8_334_601_228_800_000_000, 1)));
    assert_eq!(parse_cursor("-8334601228801_1"), None);
    let last = 8_210_266_876_799_999_999;
    assert_eq!(parse_cursor(&format_cursor(last, 9)), Some((8_210_266_876_799_000_000, 9)));
}

#[test]
fn cursor_reads_and_writes() {
    assert_eq!(parse_cursor("10_5"), Some((10_000_000, 5)));
    assert_eq!(parse_cursor("-2_-7"), Some((-2_000_000, -7)));
    assert_eq!(parse_cursor("10"), None);
    assert_eq!(parse_cursor("a_5"), None);
    assert_eq!(parse_cursor("10_5_6"), None);
    assert_eq!(parse_cursor("99999999999999_1"), None);
    assert_eq!(format_cursor(10_999_999, 7), "10_7");
    assert_eq!(format_cursor(-1, 3), "-1_3");
    let ts = 1_700_000_123_456_789;
    assert_eq!(parse_cursor(&format_cursor(ts, 42)), Some((1_700_000_123_000_000, 42)));
}

#[test]
fn limits_are_clamped() {
    assert_eq!(effective_limit(None), 20);
    assert_eq!(effective_limit(Some(0)), 1);
    assert_eq!(effective_limit(Some(-5)), 1);
    assert_eq!(effective_limit(Some(50)), 50);
    assert_eq!(effective_limit(Some(1000)), 100);
}

#[test]
fn numbered_paging_defaults() {
    assert_eq!(default_page(), 1);
    assert_eq!(default_limit(), 10);
    let q = ListPostsQuery::with_defaults(None, Some(5));
    assert_eq!((q.page, q.limit), (1, 5));
}

#[test]
fn listing_endpoint_pages_with_cursor() {
    let mut service = PostService::new(InMemoryPostRepository::new());
    for i in 0..3 {
        service
            .create(
                CreatePostInput {
                    title: format!("t{i}"),
                    content: "b".into(),
                },
                1,
                1_700_000_000_000_000 + i,
            )
            .unwrap();
    }
    let page = list_posts(
        &service,
        &ListQuery {
            cursor: None,
            limit: Some(2),
        },
    )
    .unwrap();
    assert_eq!(page.posts.len(), 2);
    assert_eq!(page.posts[0].id, 0);
    assert_eq!(page.posts[1].title, "t1");
    let last = &page.posts[1];
    let expected = format!("{}_{}", last.created_at.div_euclid(1_000_000), last.id);
    assert_eq!(page.next_cursor, Some(expected));
    let empty = list_posts(
        &service,
        &ListQuery {
            cursor: Some("0_0".into()),
            limit: None,
        },
    )
    .unwrap();
    assert!(empty.posts.is_empty());
    assert_eq!(empty.next_cursor, None);
    let ignored = list_posts(
        &service,
        &ListQuery {
            cursor: Some("junk".into()),
            limit: Some(100),
        },
    )
    .unwrap();
    assert_eq!(ignored.posts.len(), 3);
    assert_eq!(next_cursor(&Vec::new()), None);
}
