use forum::forum::{AI_USERNAME, PLACEHOLDER};
use forum::moderation::{Policy, Verdict, MEAN, MILD, MODERATE, OFFENSIVE, PROFANE, SEVERE, SEXUAL};
use forum::{ApiError, DBComment, DBPost, DBSession, DBUser, Forum, InputComment, User};

fn clean() -> Verdict {
    Verdict { flags: 0 }
}

fn forum_with_user(token: &str) -> Forum {
    let mut f = Forum::new();
    let user = User { created: 0, username: "gus".to_string(), password: "pw".to_string() };
    f.create_account_with(&user, "h".to_string(), token.to_string(), 1).unwrap();
    f
}

fn comment(post_id: u32, content: &str) -> InputComment {
    InputComment { post_id, content: content.to_string() }
}

#[test]
fn valid_post_stores_one_post_and_one_placeholder() {
    let mut f = forum_with_user("t");
    let receipt = f.submit_post_checked("t", "hello world", clean(), 100).unwrap();
    assert_eq!(receipt.post.id, 1);
    assert_eq!(receipt.post.username, "gus");
    assert_eq!(receipt.post.content, "hello world");
    assert_eq!(receipt.post.created, 100);
    assert_eq!(receipt.placeholder.id, 1);
    assert_eq!(receipt.placeholder.post_id, 1);
    assert_eq!(receipt.placeholder.username, AI_USERNAME);
    assert_eq!(receipt.placeholder.content, PLACEHOLDER);
    let posts = f.get_posts().unwrap();
    assert_eq!(posts.len(), 1);
    let comments = posts[0].comments.as_ref().unwrap();
    assert_eq!(comments.len(), 1);
    assert_eq!(comments[0].username, "AI");
    assert_eq!(comments[0].content, "Loading, please wait!");
}

#[test]
fn advice_replaces_the_placeholder() {
    let mut f = forum_with_user("t");
    let receipt = f.submit_post_checked("t", "I feel tired", clean(), 5).unwrap();
    assert!(f.complete_advice(receipt.placeholder.id, "Sleep more.".to_string()));
    let posts = f.get_posts().unwrap();
    let comments = posts[0].comments.as_ref().unwrap();
    assert_eq!(comments.len(), 1);
    assert_eq!(comments[0].id, receipt.placeholder.id);
    assert_eq!(comments[0].content, "Sleep more.");
    assert_ne!(comments[0].content, PLACEHOLDER);
}

#[test]
fn advice_for_unknown_comment_changes_nothing() {
    let mut f = forum_with_user("t");
    f.submit_post_checked("t", "post", clean(), 5).unwrap();
    assert!(!f.complete_advice(42, "x".to_string()));
    let posts = f.get_posts().unwrap();
    assert_eq!(posts[0].comments.as_ref().unwrap()[0].content, PLACEHOLDER);
}

#[test]
fn blocked_post_is_forbidden_and_not_stored() {
    let mut f = forum_with_user("t");
    let severe_offensive = Verdict { flags: OFFENSIVE & SEVERE };
    let r = f.submit_post_checked("t", "something", severe_offensive, 1);
    assert_eq!(r.unwrap_err(), ApiError::Forbidden);
    assert!(f.get_posts().is_none());
}

#[test]
fn severe_content_is_forbidden_under_either_policy() {
    let mut f = Forum::with_policy(Policy::SevereOrSexual);
    let user = User { created: 0, username: "u".to_string(), password: "p".to_string() };
    f.create_account_with(&user, "h".to_string(), "t".to_string(), 1).unwrap();
    let severe_profane = Verdict { flags: PROFANE & SEVERE };
    assert_eq!(f.submit_post_checked("t", "x", severe_profane, 1).unwrap_err(), ApiError::Forbidden);
    assert!(f.get_posts().is_none());
}

#[test]
fn post_without_session_is_unauthorized() {
    let mut f = forum_with_user("t");
    assert_eq!(f.submit_post_checked("nope", "hi", clean(), 1).unwrap_err(), ApiError::Unauthorized);
    assert!(f.get_posts().is_none());
}

#[test]
fn blank_post_is_bad_request() {
    let mut f = forum_with_user("t");
    assert_eq!(f.submit_post_checked("t", "", clean(), 1).unwrap_err(), ApiError::BadRequest);
    assert_eq!(f.submit_post_checked("t", " \t\n\u{3000}", clean(), 1).unwrap_err(), ApiError::BadRequest);
    assert!(f.get_posts().is_none());
}

#[test]
fn submit_post_analyses_the_text() {
    let mut f = forum_with_user("t");
    assert_eq!(f.submit_post("t", "you are an idiot").unwrap_err(), ApiError::Forbidden);
    let receipt = f.submit_post("t", "Good morning, have a nice day").unwrap();
    assert_eq!(receipt.post.id, 1);
    assert!(receipt.post.created > 0);
}

#[test]
fn post_and_comment_ids_increase_from_one() {
    let mut f = forum_with_user("t");
    let a = f.submit_post_checked("t", "a", clean(), 1).unwrap();
    let c = f.add_comment_checked("t", &comment(1, "nice"), clean(), 2).unwrap();
    let b = f.submit_post_checked("t", "b", clean(), 3).unwrap();
    assert_eq!((a.post.id, a.placeholder.id), (1, 1));
    assert_eq!(c.id, 2);
    assert_eq!((b.post.id, b.placeholder.id), (2, 3));
}

#[test]
fn comment_on_missing_post_is_not_found() {
    let mut f = forum_with_user("t");
    f.submit_post_checked("t", "a", clean(), 1).unwrap();
    let r = f.add_comment_checked("t", &comment(7, "hello"), clean(), 2);
    assert_eq!(r.unwrap_err(), ApiError::NotFound);
    let posts = f.get_posts().unwrap();
    assert_eq!(posts[0].comments.as_ref().unwrap().len(), 1);
}

#[test]
fn comment_checks_session_then_post_then_content() {
    let mut f = forum_with_user("t");
    f.submit_post_checked("t", "a", clean(), 1).unwrap();
    let blocked = Verdict { flags: MEAN & MILD };
    assert_eq!(f.add_comment_checked("x", &comment(9, "  "), blocked, 2).unwrap_err(), ApiError::Unauthorized);
    assert_eq!(f.add_comment_checked("t", &comment(9, "  "), blocked, 2).unwrap_err(), ApiError::NotFound);
    assert_eq!(f.add_comment_checked("t", &comment(1, "  "), blocked, 2).unwrap_err(), ApiError::BadRequest);
    assert_eq!(f.add_comment_checked("t", &comment(1, "hi"), blocked, 2).unwrap_err(), ApiError::Forbidden);
    let c = f.add_comment_checked("t", &comment(1, "hi"), clean(), 2).unwrap();
    assert_eq!(c.username, "gus");
    assert_eq!(c.content, "hi");
    assert_eq!(c.post_id, 1);
    assert_eq!(c.created, 2);
}

#[test]
fn add_comment_analyses_the_text() {
    let mut f = forum_with_user("t");
    f.submit_post_checked("t", "a", clean(), 1).unwrap();
    assert_eq!(f.add_comment("t", &comment(1, "you are an idiot")).unwrap_err(), ApiError::Forbidden);
    let c = f.add_comment("t", &comment(1, "Thanks for sharing")).unwrap();
    assert_eq!(c.id, 2);
}

#[test]
fn get_posts_returns_each_post_once_with_its_comments() {
    let mut f = forum_with_user("t");
    assert!(f.get_posts().is_none());
    f.submit_post_checked("t", "first", clean(), 1).unwrap();
    f.submit_post_checked("t", "second", clean(), 2).unwrap();
    f.add_comment_checked("t", &comment(1, "on first"), clean(), 3).unwrap();
    f.add_comment_checked("t", &comment(1, "again"), clean(), 4).unwrap();
    let posts = f.get_posts().unwrap();
    assert_eq!(posts.len(), 2);
    assert_eq!(posts[0].id, 1);
    assert_eq!(posts[1].id, 2);
    let first: Vec<&str> = posts[0].comments.as_ref().unwrap().iter().map(|c| c.content.as_str()).collect();
    assert_eq!(first, vec![PLACEHOLDER, "on first", "again"]);
    assert_eq!(posts[1].comments.as_ref().unwrap().len(), 1);
}

#[test]
fn post_without_comments_has_none() {
    let users = vec![DBUser { created: 1, username: "u".to_string(), hashed_password: "h".to_string() }];
    let sessions = vec![DBSession { username: "u".to_string(), id: "t".to_string() }];
    let posts = vec![
        DBPost { id: 3, created: 1, username: "u".to_string(), content: "a".to_string() },
        DBPost { id: 8, created: 2, username: "u".to_string(), content: "b".to_string() },
    ];
    let comments = vec![DBComment { id: 1, post_id: 8, created: 3, username: "u".to_string(), content: "c".to_string() }];
    let f = Forum::from_tables(users, sessions, posts, comments, Policy::Standard).unwrap();
    let out = f.get_posts().unwrap();
    assert_eq!(out.len(), 2);
    assert!(out[0].comments.is_none());
    assert_eq!(out[1].comments.as_ref().unwrap()[0].content, "c");
    assert_eq!(f.validate_session("t"), Some("u".to_string()));
}

#[test]
fn restored_store_continues_ids() {
    let posts = vec![DBPost { id: 3, created: 1, username: "u".to_string(), content: "a".to_string() }];
    let sessions = vec![DBSession { username: "u".to_string(), id: "t".to_string() }];
    let mut f = Forum::from_tables(vec![], sessions, posts, vec![], Policy::Standard).unwrap();
    let r = f.submit_post_checked("t", "next", clean(), 9).unwrap();
    assert_eq!(r.post.id, 4);
    assert_eq!(r.placeholder.id, 1);
}

#[test]
fn post_ids_at_the_limit_are_internal_errors() {
    let posts = vec![DBPost { id: u32::MAX, created: 1, username: "u".to_string(), content: "a".to_string() }];
    let sessions = vec![DBSession { username: "u".to_string(), id: "t".to_string() }];
    let mut f = Forum::from_tables(vec![], sessions, posts, vec![], Policy::Standard).unwrap();
    assert_eq!(f.submit_post_checked("t", "x", clean(), 1).unwrap_err(), ApiError::Internal);
    assert_eq!(f.get_posts().unwrap().len(), 1);
}

#[test]
fn tables_that_break_the_invariant_are_refused() {
    let user = |n: &str| DBUser { created: 1, username: n.to_string(), hashed_password: "h".to_string() };
    let post = |id: u32| DBPost { id, created: 1, username: "u".to_string(), content: "a".to_string() };
    let session = |u: &str, id: &str| DBSession { username: u.to_string(), id: id.to_string() };
    assert!(Forum::from_tables(vec![user("a"), user("a")], vec![], vec![], vec![], Policy::Standard).is_none());
    assert!(Forum::from_tables(vec![], vec![session("a", "1"), session("a", "2")], vec![], vec![], Policy::Standard).is_none());
    assert!(Forum::from_tables(vec![], vec![session("a", "1"), session("b", "1")], vec![], vec![], Policy::Standard).is_none());
    assert!(Forum::from_tables(vec![], vec![], vec![post(2), post(2)], vec![], Policy::Standard).is_none());
    assert!(Forum::from_tables(vec![], vec![], vec![post(5), post(2)], vec![], Policy::Standard).is_none());
    let dangling = DBComment { id: 1, post_id: 9, created: 1, username: "u".to_string(), content: "c".to_string() };
    assert!(Forum::from_tables(vec![], vec![], vec![post(1)], vec![dangling], Policy::Standard).is_none());
    assert!(Forum::from_tables(vec![user("a"), user("b")], vec![session("a", "1")], vec![post(1), post(2)], vec![], Policy::Standard).is_some());
}

#[test]
fn standard_policy_rules() {
    let p = Policy::Standard;
    assert!(p.is_blocked(&Verdict { flags: OFFENSIVE & MILD }));
    assert!(p.is_blocked(&Verdict { flags: MEAN & MILD }));
    assert!(p.is_blocked(&Verdict { flags: SEXUAL & MODERATE }));
    assert!(p.is_blocked(&Verdict { flags: SEXUAL & SEVERE }));
    assert!(!p.is_blocked(&Verdict { flags: SEXUAL & MILD }));
    assert!(!p.is_blocked(&Verdict { flags: PROFANE & SEVERE }));
    assert!(!p.is_blocked(&Verdict { flags: 0 }));
    assert_eq!(p.mask(), 0b111_110_111_000);
}

#[test]
fn severe_or_sexual_policy_rules() {
    let p = Policy::SevereOrSexual;
    assert!(p.is_blocked(&Verdict { flags: PROFANE & SEVERE }));
    assert!(p.is_blocked(&Verdict { flags: SEXUAL & MILD }));
    assert!(!p.is_blocked(&Verdict { flags: MEAN & MODERATE }));
    assert!(!p.is_blocked(&Verdict { flags: OFFENSIVE & MILD }));
    assert_eq!(p.mask(), 149796 | 448);
}

#[test]
fn rustrict_analysis_reaches_the_verdict() {
    assert!(Verdict::of_text("you are an idiot").is(MEAN));
    assert!(Verdict::of_text("fuck").is(PROFANE));
    assert!(!Verdict::of_text("Good morning, have a nice day").is(OFFENSIVE | MEAN | SEXUAL));
}
