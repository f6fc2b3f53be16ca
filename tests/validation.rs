use auth_core::claims::UserRole;
use auth_core::env::{ProcessEnv, UnknownProcessEnv};
use auth_core::error::ApiError;
use auth_core::html::{get_first_paragraph, get_headings, HeadingNode, NodeKind};
use auth_core::http::{success_status, CursorLimitQueryParams, PathWithId};
use auth_core::post::{
    recommendation_window, sanitize_post_description, sanitize_posts, user_posts_limit, CreatePostData, Post,
};
use auth_core::user::{check_mutation, check_post_id, check_user_id, CreateUserData};

fn user(username: &str, email: &str, password: &str) -> CreateUserData {
    CreateUserData { username: username.to_string(), email: email.to_string(), password: password.to_string() }
}

#[test]
fn user_data_rules() {
    assert_eq!(user("bob", "bob@x.io", "s3cret!!").is_valid(), None);
    assert_eq!(user("bob", "bob@x.io", "short").is_valid(), Some(ApiError::WeakUserPasswordError));
    assert_eq!(user("bob", "b@x.io", "xxbobxx").is_valid(), Some(ApiError::WeakUserPasswordError));
    assert_eq!(user("al", "b@x.io", "1b@x.io2").is_valid(), Some(ApiError::WeakUserPasswordError));
    assert_eq!(user("zz", "b@x.io", "1234567").is_valid(), Some(ApiError::WeakUserPasswordError));
    assert_eq!(user(&"u".repeat(43), "b@x.io", "s3cret!!").is_valid(), Some(ApiError::UsernameTooBig));
    assert_eq!(user(&"u".repeat(42), "b@x.io", "s3cret!!").is_valid(), None);
    assert_eq!(user("bob", &"e".repeat(65), "s3cret!!").is_valid(), Some(ApiError::UserEmailTooBig));
    assert_eq!(user("bob", "b@x.io", "ééé").is_valid(), None);
    assert_eq!(user("bob", "b@x.io", "éé").is_valid(), Some(ApiError::WeakUserPasswordError));
}

#[test]
fn id_sizes() {
    assert_eq!(check_user_id("abcdefghijklmnopqr"), Ok(()));
    assert_eq!(check_user_id("abc"), Err(ApiError::InvalidUserIdSize));
    assert_eq!(check_post_id("abcdefghijklmnopqrstuvwx"), Ok(()));
    assert_eq!(check_post_id("abcdefghijklmnopqr"), Err(ApiError::InvalidPostIdSize));
}

#[test]
fn mutation_rights() {
    assert_eq!(check_mutation("a", UserRole::Common, "a"), Ok(()));
    assert_eq!(check_mutation("a", UserRole::Admin, "b"), Ok(()));
    assert_eq!(check_mutation("a", UserRole::Publisher, "b"), Err(ApiError::DataMutationDenied));
}

#[test]
fn post_data_rules() {
    let ok = CreatePostData { title: "A good title!".to_string(), content: "x".to_string(), thumb_image: None };
    assert_eq!(ok.is_valid(), None);
    let short = CreatePostData { title: "short".to_string(), ..ok.clone() };
    assert_eq!(short.is_valid(), Some(ApiError::InvalidPostTitleSize));
    let long = CreatePostData { title: "t".repeat(193), ..ok.clone() };
    assert_eq!(long.is_valid(), Some(ApiError::InvalidPostTitleSize));
    let thumb = CreatePostData { title: "t".to_string(), thumb_image: Some("k".repeat(129)), ..ok.clone() };
    assert_eq!(thumb.is_valid(), Some(ApiError::InvalidPostThumbIdSize));
    let thumb_ok = CreatePostData { thumb_image: Some("k".repeat(128)), ..ok };
    assert_eq!(thumb_ok.is_valid(), None);
}

#[test]
fn description_cut() {
    assert_eq!(sanitize_post_description("a".repeat(256)), "a".repeat(256));
    assert_eq!(sanitize_post_description("a".repeat(257)), format!("{} [...]", "a".repeat(250)));
    let s = format!("{}é{}", "a".repeat(249), "b".repeat(20));
    assert_eq!(sanitize_post_description(s), format!("{} [...]", "a".repeat(249)));
}

#[test]
fn listing_limits() {
    assert_eq!(user_posts_limit(10), 10);
    assert_eq!(user_posts_limit(256), 256);
    assert_eq!(user_posts_limit(1000), 256);
    let v = vec![1, 2, 3, 4, 5];
    assert_eq!(recommendation_window(v.clone(), 4, 1), Ok(vec![2, 3, 4]));
    assert_eq!(recommendation_window(v.clone(), 200, 1), Ok(v.clone()));
    assert_eq!(recommendation_window(v.clone(), 2, 5), Err(ApiError::PostNotFound));
    assert_eq!(recommendation_window(Vec::<i32>::new(), 2, 0), Err(ApiError::PostNotFound));
}

#[test]
fn first_paragraph_of_fragment() {
    assert_eq!(get_first_paragraph("<h2>T</h2><p>Hello <b>x</b></p>"), Some("Hello ".to_string()));
    assert_eq!(get_first_paragraph("<div>none</div>"), None);
}

#[test]
fn headings_of_fragment() {
    let h = get_headings("<h2>Intro</h2><p>text</p><h4>Part</h4>");
    assert_eq!(
        h,
        vec![
            HeadingNode { title: "Intro".to_string(), kind: NodeKind::H2 },
            HeadingNode { title: "Part".to_string(), kind: NodeKind::H4 },
        ]
    );
    assert_eq!(get_headings("<p>plain</p>"), vec![]);
}

#[test]
fn listing_shortens_long_posts() {
    let long = format!("<p>{}</p>", "w".repeat(300));
    let post = Post {
        id: "p".to_string(),
        created_at: 1,
        updated_at: 2,
        title: "t".to_string(),
        content: long,
        thumb_image: None,
        user_id: "u".to_string(),
    };
    let short = Post { content: "<p>hi</p>".to_string(), ..post.clone() };
    let out = sanitize_posts(vec![post.clone(), short.clone()]);
    assert_eq!(out[0].content, format!("{} [...]", "w".repeat(250)));
    assert_eq!(out[0].id, post.id);
    assert_eq!(out[1], short);
}

#[test]
fn process_env_names() {
    assert_eq!("DEV".parse::<ProcessEnv>(), Ok(ProcessEnv::Development));
    assert_eq!("DEVELOPMENT".parse::<ProcessEnv>(), Ok(ProcessEnv::Development));
    assert_eq!("PROD".parse::<ProcessEnv>(), Ok(ProcessEnv::Production));
    assert_eq!("PRODUCTION".parse::<ProcessEnv>(), Ok(ProcessEnv::Production));
    assert_eq!("dev".parse::<ProcessEnv>(), Err(UnknownProcessEnv));
    assert_eq!(ProcessEnv::from_name(""), None);
}

#[test]
fn request_parameters() {
    let p = PathWithId { id: "x".to_string() };
    assert_eq!(p.id(), "x");
    let q = CursorLimitQueryParams { limit: Some(5usize), cursor: None::<usize> };
    assert_eq!(q.limit(), Some(5));
    assert_eq!(q.cursor(), None);
    assert_eq!(success_status(true), 201);
    assert_eq!(success_status(false), 200);
}

#[test]
fn role_names() {
    assert_eq!(UserRole::Common.to_string(), "COMMON");
    assert_eq!(UserRole::Admin.to_string(), "ADMIN");
    assert_eq!(UserRole::Publisher.to_string(), "PUBLISHER");
}
