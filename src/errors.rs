use vstd::prelude::*;

verus! {

/// Failures of the recipe operations.
#[derive(Debug, Clone, Copy, PartialEq, Eq, Structural)]
pub enum RecipeError {
    RecipeDoNotbelongToUser,
    RecipeImportedWebsiteNotSupported,
    RecipeNotImported,
    RecipeNotFound,
    Unknown,
}

/// Failures of the user operations.
#[derive(Debug, Clone, Copy, PartialEq, Eq, Structural)]
pub enum UserError {
    MustBeLogged,
    BadCredentials,
    UserNotFound,
    UserAlreadyExists,
    Unknown,
}

/// Any failure that an operation of the service reports to its client.
#[derive(Debug, Clone, Copy, PartialEq, Eq, Structural)]
pub enum DomainError {
    User(UserError),
    Recipe(RecipeError),
}

impl RecipeError {
    /// The text shown to clients.
    pub fn message(&self) -> (r: &'static str)
        ensures
            r@ == recipe_error_text(*self),
    {
        match self {
            RecipeError::RecipeDoNotbelongToUser => "Recipe is not yours",
            RecipeError::RecipeImportedWebsiteNotSupported => "Website not supported",
            RecipeError::RecipeNotImported => "Recipe not imported",
            RecipeError::RecipeNotFound => "Recipe not found",
            RecipeError::Unknown => "unknown error",
        }
    }
}

/// The text shown to clients for a recipe error.
pub open spec fn recipe_error_text(e: RecipeError) -> Seq<char> {
    match e {
        RecipeError::RecipeDoNotbelongToUser => "Recipe is not yours"@,
        RecipeError::RecipeImportedWebsiteNotSupported => "Website not supported"@,
        RecipeError::RecipeNotImported => "Recipe not imported"@,
        RecipeError::RecipeNotFound => "Recipe not found"@,
        RecipeError::Unknown => "unknown error"@,
    }
}

impl UserError {
    /// The text shown to clients.
    pub fn message(&self) -> (r: &'static str)
        ensures
            r@ == user_error_text(*self),
    {
        match self {
            UserError::MustBeLogged => "User must be logged in",
            UserError::BadCredentials => "Bad credentials",
            UserError::UserNotFound => "User not found",
            UserError::UserAlreadyExists => "User already exists",
            UserError::Unknown => "unknown error",
        }
    }
}

/// The text shown to clients for a user error.
pub open spec fn user_error_text(e: UserError) -> Seq<char> {
    match e {
        UserError::MustBeLogged => "User must be logged in"@,
        UserError::BadCredentials => "Bad credentials"@,
        UserError::UserNotFound => "User not found"@,
        UserError::UserAlreadyExists => "User already exists"@,
        UserError::Unknown => "unknown error"@,
    }
}

impl DomainError {
    /// The text shown to clients.
    pub fn message(&self) -> (r: &'static str)
        ensures
            r@ == match *self {
                DomainError::User(e) => user_error_text(e),
                DomainError::Recipe(e) => recipe_error_text(e),
            },
    {
        match self {
            DomainError::User(e) => e.message(),
            DomainError::Recipe(e) => e.message(),
        }
    }
}

} // verus!
