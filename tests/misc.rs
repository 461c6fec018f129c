use recipes_backend::errors::{DomainError, RecipeError, UserError};
use recipes_backend::image_store::{S3ImageStore, UPLOAD_EXPIRY_SECS};
use recipes_backend::text::like_matches;

#[test]
fn error_messages() {
    assert_eq!(UserError::MustBeLogged.message(), "User must be logged in");
    assert_eq!(UserError::BadCredentials.message(), "Bad credentials");
    assert_eq!(UserError::UserAlreadyExists.message(), "User already exists");
    assert_eq!(UserError::UserNotFound.message(), "User not found");
    assert_eq!(RecipeError::RecipeNotFound.message(), "Recipe not found");
    assert_eq!(RecipeError::RecipeDoNotbelongToUser.message(), "Recipe is not yours");
    assert_eq!(RecipeError::RecipeImportedWebsiteNotSupported.message(), "Website not supported");
    assert_eq!(RecipeError::RecipeNotImported.message(), "Recipe not imported");
    assert_eq!(RecipeError::Unknown.message(), "unknown error");
    assert_eq!(DomainError::User(UserError::Unknown).message(), "unknown error");
}

#[test]
fn upload_settings_and_paths() {
    let store = S3ImageStore::from_settings(None, None);
    assert_eq!(store.region, "eu-west-3");
    assert_eq!(store.bucket_name, "rustipe-photos");
    let store = S3ImageStore::from_settings(Some(String::from("us-east-1")), Some(String::from("b")));
    assert_eq!(store.region, "us-east-1");
    assert_eq!(store.bucket_name, "b");
    let store = S3ImageStore::new(String::from("r"), String::from("n"));
    assert_eq!(store.region, "r");
    assert_eq!(S3ImageStore::upload_path("abc", "png"), "/abc.png");
    assert_eq!(UPLOAD_EXPIRY_SECS, 3600);
}

#[test]
fn like_patterns() {
    use_like("abc", "abc", true);
    use_like("a%", "abc", true);
    use_like("%c", "abc", true);
    use_like("a_c", "abc", true);
    use_like("a_c", "ac", false);
    use_like("%", "", true);
    use_like("", "", true);
    use_like("", "a", false);
    use_like("a\\%", "a%", true);
    use_like("a\\%", "ab", false);
    use_like("%b%b%", "abcb", true);
    use_like("%b%b%", "abc", false);
}

fn use_like(pattern: &str, text: &str, expected: bool) {
    let p: Vec<char> = pattern.chars().collect();
    let t: Vec<char> = text.chars().collect();
    assert_eq!(like_matches(&p, &t), expected, "{} against {}", pattern, text);
}
