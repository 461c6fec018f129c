use recipes_backend::auth::{
    bearer_token, claims_subject, decode_header, token_subject, generate_header, hash_password, hash_to_string, issue_token, unix_now,
    LoggedUser, TokenError, NUMBER_OF_SECOND_IN_A_MONTH,
};
use recipes_backend::errors::{DomainError, RecipeError, UserError};
use recipes_backend::ids::{new_id, parse_id};
use recipes_backend::json::parse_json;
use recipes_backend::interactor::{ImageStore, RecipeInteractor, UserInteractor};
use recipes_backend::memory::{MemoryRecipeDao, MemoryUserDao};
use recipes_backend::parser::SelectParser;
use recipes_backend::schema::{Context, Mutation};
use recipes_backend::store::User;

const SECRET: &[u8] = b"SECRET";

struct NoUploads;

impl ImageStore for NoUploads {
    fn get_photo_upload_url(&self, _extension: &str) -> Result<String, RecipeError> {
        Err(RecipeError::Unknown)
    }
}

fn context() -> Context<MemoryRecipeDao, MemoryUserDao, MemoryUserDao, NoUploads> {
    Context {
        recipe_interactor: RecipeInteractor {
            recipe_dao: MemoryRecipeDao::new(),
            user_dao: MemoryUserDao::new(),
            parser: SelectParser::new(),
            image_store: NoUploads,
        },
        user_interactor: UserInteractor { dao: MemoryUserDao::new() },
        user_id: None,
        secret: SECRET.to_vec(),
    }
}

#[test]
fn password_hash_is_deterministic_and_fixed_length() {
    let a = hash_password("toto");
    let b = hash_password("toto");
    let c = hash_password("titi");
    assert_eq!(a, b);
    assert_ne!(a, c);
    assert_eq!(a.chars().count(), 32);
    assert_ne!(a, "toto");
}

#[test]
fn hash_bytes_become_code_points() {
    assert_eq!(hash_to_string(&vec![72, 105, 233]), "Hié");
    assert_eq!(hash_to_string(&vec![]), "");
}

#[test]
fn bearer_header_forms() {
    assert_eq!(bearer_token(&vec![String::from("Bearer abc.def")]), Some(String::from("abc.def")));
    assert_eq!(bearer_token(&vec![String::from("Bearer x y")]), Some(String::from("y")));
    assert_eq!(bearer_token(&vec![String::from("Bearer ")]), Some(String::new()));
    assert_eq!(bearer_token(&vec![String::from("Basic abc")]), None);
    assert_eq!(bearer_token(&vec![]), None);
    assert_eq!(bearer_token(&vec![String::from("Bearer a"), String::from("Bearer b")]), None);
}

#[test]
fn issued_token_names_its_user() {
    let id = new_id();
    let user = User { id: id.clone(), email: String::from("thibaut@gery.com") };
    let token = generate_header(&user, SECRET).unwrap();
    assert_eq!(decode_header(&token, SECRET), Ok(id.clone()));
    assert_eq!(decode_header(&token, b"OTHER"), Err(TokenError::InvalidToken));
    assert_eq!(decode_header("garbage", SECRET), Err(TokenError::InvalidToken));
    let logged = LoggedUser::from_headers(&vec![format!("Bearer {}", token)], SECRET);
    assert_eq!(logged.0, Some(id));
    let anonymous = LoggedUser::from_headers(&vec![token.clone()], SECRET);
    assert_eq!(anonymous.0, None);
}

#[test]
fn expired_token_is_refused() {
    let id = new_id();
    let now = unix_now().unwrap();
    let old = issue_token(&id, now - NUMBER_OF_SECOND_IN_A_MONTH - 10, SECRET).unwrap();
    assert_eq!(decode_header(&old, SECRET), Err(TokenError::TokenExpired));
    let logged = LoggedUser::from_headers(&vec![format!("Bearer {}", old)], SECRET);
    assert_eq!(logged.0, None);
    assert_eq!(issue_token(&id, u64::MAX, SECRET), Err(UserError::Unknown));
}

#[test]
fn token_of_a_non_uuid_subject_is_refused() {
    let token = issue_token("not-a-uuid", unix_now().unwrap(), SECRET).unwrap();
    assert_eq!(decode_header(&token, SECRET), Err(TokenError::InvalidToken));
}

#[test]
fn signup_then_signin_name_the_same_user() {
    let mut ctx = context();
    let t1 = Mutation::signup(&mut ctx, String::from("thibaut@gery.com"), String::from("toto")).unwrap();
    let t2 = Mutation::signin(&ctx, String::from("thibaut@gery.com"), String::from("toto")).unwrap();
    let id1 = decode_header(&t1, SECRET).unwrap();
    let id2 = decode_header(&t2, SECRET).unwrap();
    assert_eq!(id1, id2);
    assert_eq!(parse_id(&id1), Some(id1.clone()));
}

#[test]
fn second_signup_with_same_email_is_refused() {
    let mut ctx = context();
    Mutation::signup(&mut ctx, String::from("a@b.c"), String::from("p1")).unwrap();
    let r = Mutation::signup(&mut ctx, String::from("a@b.c"), String::from("p2"));
    assert_eq!(r.err(), Some(DomainError::User(UserError::UserAlreadyExists)));
}

#[test]
fn signin_with_wrong_password_is_refused() {
    let mut ctx = context();
    Mutation::signup(&mut ctx, String::from("a@b.c"), String::from("right")).unwrap();
    let r = Mutation::signin(&ctx, String::from("a@b.c"), String::from("wrong"));
    assert_eq!(r.err(), Some(DomainError::User(UserError::BadCredentials)));
    let r = Mutation::signin(&ctx, String::from("x@b.c"), String::from("right"));
    assert_eq!(r.err(), Some(DomainError::User(UserError::BadCredentials)));
}

#[test]
fn uuid_text_is_normalised() {
    assert_eq!(
        parse_id("2F0194AF-66E6-43F5-8E1A-2E836C9E44A8"),
        Some(String::from("2f0194af-66e6-43f5-8e1a-2e836c9e44a8"))
    );
    assert_eq!(parse_id("nope"), None);
    let id = new_id();
    assert_eq!(id.len(), 36);
    assert_eq!(id, id.to_lowercase());
}

#[test]
fn token_lifetime_is_thirty_days() {
    assert_eq!(NUMBER_OF_SECOND_IN_A_MONTH, 2_592_000);
}

#[test]
fn claims_name_their_subject_until_expiry() {
    let claims = parse_json(r#"{"sub": "2F0194AF-66E6-43F5-8E1A-2E836C9E44A8", "exp": 100, "iat": 0}"#).unwrap();
    assert_eq!(claims_subject(&claims, 99), Ok(String::from("2f0194af-66e6-43f5-8e1a-2e836c9e44a8")));
    assert_eq!(claims_subject(&claims, 100), Err(TokenError::TokenExpired));
    let no_exp = parse_json(r#"{"sub": "2f0194af-66e6-43f5-8e1a-2e836c9e44a8"}"#).unwrap();
    assert_eq!(claims_subject(&no_exp, 0), Err(TokenError::InvalidToken));
    let bad_sub = parse_json(r#"{"sub": "someone", "exp": 100}"#).unwrap();
    assert_eq!(claims_subject(&bad_sub, 0), Err(TokenError::InvalidToken));
    let negative_exp = parse_json(r#"{"sub": "2f0194af-66e6-43f5-8e1a-2e836c9e44a8", "exp": -1}"#).unwrap();
    assert_eq!(claims_subject(&negative_exp, 0), Err(TokenError::InvalidToken));
}

#[test]
fn token_subject_depends_on_the_time() {
    let id = new_id();
    let token = issue_token(&id, 1_000, SECRET).unwrap();
    assert_eq!(token_subject(&token, SECRET, 1_000), Ok(id.clone()));
    assert_eq!(token_subject(&token, SECRET, 1_000 + NUMBER_OF_SECOND_IN_A_MONTH - 1), Ok(id.clone()));
    assert_eq!(token_subject(&token, SECRET, 1_000 + NUMBER_OF_SECOND_IN_A_MONTH), Err(TokenError::TokenExpired));
    assert_eq!(token_subject(&token, b"OTHER", 1_000), Err(TokenError::InvalidToken));
}
