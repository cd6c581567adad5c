use gitreal::reactions::{
    count_from_row, flag_from_row, Reaction, ReactionState, ReactionTally, ReqReaction,
    UserReactionTally, UserReactions,
};
use gitreal::user::{user_by_id_query, user_was_added, MeInfo, UserInfo};

#[test]
fn post_reaction_test() {
    let req = ReqReaction { reaction_id: 3, commit_id: 17, active: true };
    let reaction = Reaction::from_request(&req, 42);
    assert_eq!(reaction, Reaction { reaction_id: 3, user_id: 42, commit_id: 17, active: true });
}

#[test]
fn reaction_tally_asks_each_id_once_in_order() {
    let mut tally = ReactionTally::new();
    let mut asked = Vec::new();
    let rows = [Some(4), None, Some(0), Some(1), Some(2), Some(3), Some(5), Some(6), Some(7)];
    let mut k = 0;
    while let Some(id) = tally.next_reaction_id() {
        asked.push(id);
        tally.record(rows[k]);
        k += 1;
    }
    assert_eq!(asked, vec![0, 1, 2, 3, 4, 5, 6, 7, 8]);
    assert_eq!(tally.next_reaction_id(), None);
    let state = tally.finish();
    assert_eq!(
        state,
        ReactionState {
            heart: 4,
            rocket: 0,
            thumbsup: 0,
            thumbsdown: 1,
            skull: 2,
            trash: 3,
            tada: 5,
            facepalm: 6,
            nerd: 7,
        }
    );
}

#[test]
fn count_rows_default_to_zero_and_narrow() {
    assert_eq!(count_from_row(None), 0);
    assert_eq!(count_from_row(Some(12)), 12);
    assert_eq!(count_from_row(Some((1i64 << 32) + 5)), 5);
    assert_eq!(count_from_row(Some(i32::MAX as i64 + 1)), i32::MIN);
}

#[test]
fn user_reaction_tally_missing_rows_are_inactive() {
    let mut tally = UserReactionTally::new();
    let rows = [Some(true), None, Some(false), None, None, None, Some(true), None, Some(true)];
    let mut k = 0;
    while let Some(id) = tally.next_reaction_id() {
        assert_eq!(id, k as i32);
        tally.record(rows[k]);
        k += 1;
    }
    assert_eq!(k, 9);
    assert_eq!(
        tally.finish(),
        UserReactions {
            heart: true,
            rocket: false,
            thumbsup: false,
            thumbsdown: false,
            skull: false,
            trash: false,
            tada: true,
            facepalm: false,
            nerd: true,
        }
    );
    assert!(!flag_from_row(None));
    assert!(flag_from_row(Some(true)));
}

#[test]
fn me_info_copies_profile() {
    let user = UserInfo {
        id: 9001,
        name: "Ada".to_string(),
        username: "ada".to_string(),
        avatar_url: "https://example.org/a.png".to_string(),
        default_language: 2,
    };
    let me = MeInfo::from_user(user.clone(), true);
    assert_eq!(me.id, 9001);
    assert_eq!(me.name, "Ada");
    assert_eq!(me.username, "ada");
    assert_eq!(me.avatar_url, "https://example.org/a.png");
    assert_eq!(me.default_language, 2);
    assert!(me.completed_correctly);
    assert!(!MeInfo::from_user(user, false).completed_correctly);
}

#[test]
fn user_query_holds_the_id() {
    assert_eq!(user_by_id_query(42), "SELECT * FROM users WHERE id = 42");
    assert_eq!(user_by_id_query(-7), "SELECT * FROM users WHERE id = -7");
    assert_eq!(
        user_by_id_query(i64::MIN),
        "SELECT * FROM users WHERE id = -9223372036854775808"
    );
}

#[test]
fn user_added_only_when_a_row_was_written() {
    assert!(!user_was_added(0));
    assert!(user_was_added(1));
    assert!(user_was_added(3));
}
