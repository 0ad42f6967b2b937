use filmpulse::account::{AccountError, Slot};
use filmpulse::error::ErrorCode;
use filmpulse::key::Key;
use filmpulse::layout::review_space;
use filmpulse::review::{delete_review, post_review, write_review, DeleteReview, PostReview, Review};
use filmpulse::validate::validate_review;
use filmpulse::verify::{verify_review, write_verification, Verify, VerifyReview};

fn key(b: u8) -> Key {
    Key::new([b; 32])
}

fn post_ctx(author: u8) -> PostReview {
    PostReview { review: Slot::empty(1_000), author: key(author) }
}

#[test]
fn great_film_with_empty_essay_is_stored_exactly() {
    let mut ctx = post_ctx(7);
    let r = write_review(&mut ctx, 1_700_000_000, "Great film".to_string(), String::new(), 5);
    assert_eq!(r, Ok(()));
    let stored = ctx.review.data.as_ref().unwrap();
    assert!(stored.author.same(&key(7)));
    assert_eq!(stored.timestamp, 1_700_000_000);
    assert_eq!(stored.title, "Great film");
    assert_eq!(stored.essay, "");
    assert_eq!(stored.rating, 5);
    assert_eq!(ctx.review.lamports, 1_000);
}

#[test]
fn empty_title_is_title_required() {
    let mut ctx = post_ctx(1);
    let r = write_review(&mut ctx, 0, String::new(), "essay".to_string(), 3);
    assert_eq!(r, Err(AccountError::Invalid(ErrorCode::TitleRequired)));
    assert!(ctx.review.data.is_none());
}

#[test]
fn title_of_51_chars_is_too_long() {
    let mut ctx = post_ctx(1);
    let r = write_review(&mut ctx, 0, "a".repeat(51), String::new(), 3);
    assert_eq!(r, Err(AccountError::Invalid(ErrorCode::TitleTooLong)));
    assert!(ctx.review.data.is_none());
}

#[test]
fn long_title_wins_over_long_essay() {
    assert_eq!(validate_review(&"t".repeat(60), &"e".repeat(300)), Err(ErrorCode::TitleTooLong));
    assert_eq!(validate_review("", &"e".repeat(300)), Err(ErrorCode::TitleRequired));
}

#[test]
fn essay_over_280_chars_is_too_long() {
    assert_eq!(validate_review("ok", &"e".repeat(281)), Err(ErrorCode::ReviewTooLong));
    assert_eq!(validate_review("ok", &"e".repeat(280)), Ok(()));
}

#[test]
fn lengths_count_characters_not_bytes() {
    // 50 four-byte characters: 200 bytes, yet a valid title.
    let title = "\u{1F3AC}".repeat(50);
    assert_eq!(title.len(), 200);
    assert_eq!(validate_review(&title, &"\u{e9}".repeat(280)), Ok(()));
    assert_eq!(validate_review(&"\u{e9}".repeat(51), ""), Err(ErrorCode::TitleTooLong));
    let mut ctx = post_ctx(2);
    assert_eq!(write_review(&mut ctx, 9, title.clone(), String::new(), -4), Ok(()));
    assert_eq!(ctx.review.data.as_ref().unwrap().title, title);
}

#[test]
fn bounds_are_inclusive() {
    assert_eq!(validate_review("x", ""), Ok(()));
    assert_eq!(validate_review(&"x".repeat(50), &"y".repeat(280)), Ok(()));
}

#[test]
fn any_rating_is_accepted() {
    for rating in [i32::MIN, -1, 0, 11, i32::MAX] {
        let mut ctx = post_ctx(3);
        assert_eq!(write_review(&mut ctx, 0, "t".to_string(), String::new(), rating), Ok(()));
        assert_eq!(ctx.review.data.as_ref().unwrap().rating, rating);
    }
}

#[test]
fn second_post_into_same_slot_is_already_initialized() {
    let mut ctx = post_ctx(4);
    assert_eq!(write_review(&mut ctx, 1, "first".to_string(), String::new(), 1), Ok(()));
    let r = write_review(&mut ctx, 2, "second".to_string(), String::new(), 2);
    assert_eq!(r, Err(AccountError::AlreadyInitialized));
    // Even invalid fields are reported as the slot being taken.
    let r = write_review(&mut ctx, 2, String::new(), String::new(), 2);
    assert_eq!(r, Err(AccountError::AlreadyInitialized));
    assert_eq!(ctx.review.data.as_ref().unwrap().title, "first");
    assert_eq!(ctx.review.data.as_ref().unwrap().timestamp, 1);
}

#[test]
fn post_review_reports_validation_before_the_clock() {
    let mut ctx = post_ctx(5);
    let r = post_review(&mut ctx, String::new(), String::new(), 1, vec![]);
    assert_eq!(r, Err(AccountError::Invalid(ErrorCode::TitleRequired)));
    let r = post_review(&mut ctx, "z".repeat(51), String::new(), 1, vec![key(9)]);
    assert_eq!(r, Err(AccountError::Invalid(ErrorCode::TitleTooLong)));
    let r = post_review(&mut ctx, "t".to_string(), "e".repeat(281), 1, vec![]);
    assert_eq!(r, Err(AccountError::Invalid(ErrorCode::ReviewTooLong)));
    assert!(ctx.review.data.is_none());
}

#[test]
fn post_review_with_valid_fields_stores_them_or_reports_the_clock() {
    let mut ctx = post_ctx(5);
    match post_review(&mut ctx, "Great film".to_string(), String::new(), 5, vec![]) {
        Ok(()) => {
            let stored = ctx.review.data.as_ref().unwrap();
            assert_eq!(stored.title, "Great film");
            assert_eq!(stored.essay, "");
            assert_eq!(stored.rating, 5);
        }
        Err(e) => {
            assert_eq!(e, AccountError::ClockUnavailable);
            assert!(ctx.review.data.is_none());
        }
    }
}

fn stored_review(author: u8, lamports: u64) -> Slot<Review> {
    let mut ctx = PostReview { review: Slot::empty(lamports), author: key(author) };
    write_review(&mut ctx, 10, "Film".to_string(), "Fine.".to_string(), 4).unwrap();
    ctx.review
}

#[test]
fn delete_by_another_signer_is_unauthorized() {
    let mut ctx = DeleteReview { review: stored_review(1, 500), author: key(2), author_lamports: 10 };
    assert_eq!(delete_review(&mut ctx), Err(AccountError::Unauthorized));
    assert!(ctx.review.data.is_some());
    assert_eq!(ctx.review.lamports, 500);
    assert_eq!(ctx.author_lamports, 10);
}

#[test]
fn delete_by_author_refunds_and_frees_the_slot() {
    let mut ctx = DeleteReview { review: stored_review(1, 500), author: key(1), author_lamports: 10 };
    assert_eq!(delete_review(&mut ctx), Ok(()));
    assert!(ctx.review.data.is_none());
    assert_eq!(ctx.review.lamports, 0);
    assert_eq!(ctx.author_lamports, 510);
    let mut again = PostReview { review: ctx.review, author: key(3) };
    assert_eq!(write_review(&mut again, 11, "New".to_string(), String::new(), 0), Ok(()));
}

#[test]
fn delete_of_an_empty_slot_is_not_initialized() {
    let mut ctx = DeleteReview { review: Slot::empty(5), author: key(1), author_lamports: 0 };
    assert_eq!(delete_review(&mut ctx), Err(AccountError::NotInitialized));
    assert_eq!(ctx.review.lamports, 5);
}

#[test]
fn delete_refund_overflow_is_refused() {
    let mut ctx =
        DeleteReview { review: stored_review(1, 2), author: key(1), author_lamports: u64::MAX - 1 };
    assert_eq!(delete_review(&mut ctx), Err(AccountError::LamportsOverflow));
    assert!(ctx.review.data.is_some());
    assert_eq!(ctx.author_lamports, u64::MAX - 1);
}

#[test]
fn keys_compare_by_every_byte() {
    let mut b = [0u8; 32];
    b[31] = 1;
    assert!(!Key::new(b).same(&key(0)));
    assert!(key(0).same(&Key::new([0; 32])));
}

#[test]
fn account_sizes() {
    assert_eq!(Review::LEN, 1408);
    assert_eq!(Review::space(), 1408);
    assert_eq!(review_space(0), 1376);
    assert_eq!(review_space(32), Review::LEN);
    assert_eq!(Verify::LEN, 80);
    assert_eq!(Verify::space(), 80);
}

#[test]
fn error_messages() {
    assert_eq!(ErrorCode::TitleRequired.message(), "Topic Required.");
    assert_eq!(
        ErrorCode::TitleTooLong.message(),
        "The provided title should be 50 characters long maximum."
    );
    assert_eq!(
        ErrorCode::ReviewTooLong.message(),
        "The provided review should be 280 characters long maximum."
    );
}

#[test]
fn verification_stores_author_time_and_review_key() {
    let mut ctx = VerifyReview { verify: Slot::empty(0), author: key(8) };
    assert_eq!(write_verification(&mut ctx, 42, key(6)), Ok(()));
    let v = ctx.verify.data.unwrap();
    assert!(v.author.same(&key(8)));
    assert!(v.review_key.same(&key(6)));
    assert_eq!(v.timestamp, 42);
    assert_eq!(write_verification(&mut ctx, 43, key(7)), Err(AccountError::AlreadyInitialized));
    assert_eq!(ctx.verify.data.unwrap().timestamp, 42);
}

#[test]
fn verify_review_into_taken_slot_is_already_initialized() {
    let mut ctx = VerifyReview { verify: Slot::empty(0), author: key(8) };
    write_verification(&mut ctx, 1, key(6)).unwrap();
    let r = verify_review(&mut ctx, key(5), key(4), vec!["v".to_string()]);
    assert_eq!(r, Err(AccountError::AlreadyInitialized));
    assert!(ctx.verify.data.unwrap().review_key.same(&key(6)));
}

#[test]
fn verify_review_stores_the_key_or_reports_the_clock() {
    let mut ctx = VerifyReview { verify: Slot::empty(0), author: key(8) };
    match verify_review(&mut ctx, key(5), key(4), vec![]) {
        Ok(()) => assert!(ctx.verify.data.unwrap().review_key.same(&key(5))),
        Err(e) => {
            assert_eq!(e, AccountError::ClockUnavailable);
            assert!(ctx.verify.data.is_none());
        }
    }
}

#[test]
fn only_the_stored_author_is_the_author() {
    let review = stored_review(3, 1).data.unwrap();
    assert!(review.is_author(&key(3)));
    assert!(!review.is_author(&key(4)));
}
