//! The kinds of failure a caller is shown, and where each operation's errors fall.
use vstd::prelude::*;
use crate::account::RegisterError;
use crate::claims::AuthError;
use crate::credit::CreditError;
use crate::favorite::FavoriteError;
use crate::pay::PayError;
use crate::task::TaskError;

verus! {

/// What a caller is told went wrong.
#[derive(Clone, Copy, Debug, PartialEq, Eq, Structural)]
pub enum ErrorKind {
    NotFound,
    Unauthorized,
    Forbidden,
    BadRequest,
    ProviderError,
    Internal,
}

impl ErrorKind {
    pub open spec fn spec_status(self) -> u16 {
        match self {
            ErrorKind::NotFound => 404,
            ErrorKind::Unauthorized => 401,
            ErrorKind::Forbidden => 403,
            ErrorKind::BadRequest => 400,
            ErrorKind::ProviderError => 502,
            ErrorKind::Internal => 500,
        }
    }

    /// The HTTP status the kind is answered with.
    pub fn status(&self) -> (r: u16)
        ensures
            r == self.spec_status(),
    {
        match self {
            ErrorKind::NotFound => 404,
            ErrorKind::Unauthorized => 401,
            ErrorKind::Forbidden => 403,
            ErrorKind::BadRequest => 400,
            ErrorKind::ProviderError => 502,
            ErrorKind::Internal => 500,
        }
    }

    /// The status's reason phrase, used as the title of a problem report.
    pub fn title(&self) -> (r: &'static str)
        ensures
            r@ == match self {
                ErrorKind::NotFound => "Not Found"@,
                ErrorKind::Unauthorized => "Unauthorized"@,
                ErrorKind::Forbidden => "Forbidden"@,
                ErrorKind::BadRequest => "Bad Request"@,
                ErrorKind::ProviderError => "Bad Gateway"@,
                ErrorKind::Internal => "Internal Server Error"@,
            },
    {
        match self {
            ErrorKind::NotFound => "Not Found",
            ErrorKind::Unauthorized => "Unauthorized",
            ErrorKind::Forbidden => "Forbidden",
            ErrorKind::BadRequest => "Bad Request",
            ErrorKind::ProviderError => "Bad Gateway",
            ErrorKind::Internal => "Internal Server Error",
        }
    }
}

impl CreditError {
    /// A missing account is not found; a short balance or a bad amount is the
    /// caller's to fix; an overflowing balance is ours.
    pub fn kind(&self) -> (r: ErrorKind)
        ensures
            r == match self {
                CreditError::UserNotFound => ErrorKind::NotFound,
                CreditError::InsufficientBalance => ErrorKind::BadRequest,
                CreditError::InvalidAmount => ErrorKind::BadRequest,
                CreditError::BalanceOverflow => ErrorKind::Internal,
            },
    {
        match self {
            CreditError::UserNotFound => ErrorKind::NotFound,
            CreditError::InsufficientBalance => ErrorKind::BadRequest,
            CreditError::InvalidAmount => ErrorKind::BadRequest,
            CreditError::BalanceOverflow => ErrorKind::Internal,
        }
    }
}

impl RegisterError {
    /// Every refusal is the caller's to fix but running out of ids, of room in
    /// the inviter's balance, or of a free invite code.
    pub fn kind(&self) -> (r: ErrorKind)
        ensures
            r == match self {
                RegisterError::IdsExhausted => ErrorKind::Internal,
                RegisterError::BonusOverflow => ErrorKind::Internal,
                RegisterError::InviteCodeTaken => ErrorKind::Internal,
                _ => ErrorKind::BadRequest,
            },
    {
        match self {
            RegisterError::IdsExhausted => ErrorKind::Internal,
            RegisterError::BonusOverflow => ErrorKind::Internal,
            RegisterError::InviteCodeTaken => ErrorKind::Internal,
            _ => ErrorKind::BadRequest,
        }
    }
}

impl AuthError {
    /// Failed sign-ins are unauthorized; a token that does not fit, or a user
    /// who is not an administrator, is forbidden.
    pub fn kind(&self) -> (r: ErrorKind)
        ensures
            r == match self {
                AuthError::NotRegistered => ErrorKind::Unauthorized,
                AuthError::WrongPassword => ErrorKind::Unauthorized,
                AuthError::TokenMismatch => ErrorKind::Forbidden,
                AuthError::AdminRequired => ErrorKind::Forbidden,
            },
    {
        match self {
            AuthError::NotRegistered => ErrorKind::Unauthorized,
            AuthError::WrongPassword => ErrorKind::Unauthorized,
            AuthError::TokenMismatch => ErrorKind::Forbidden,
            AuthError::AdminRequired => ErrorKind::Forbidden,
        }
    }
}

impl TaskError {
    pub fn kind(&self) -> (r: ErrorKind)
        ensures
            r == match self {
                TaskError::NotFound => ErrorKind::NotFound,
                TaskError::Forbidden => ErrorKind::Forbidden,
                TaskError::BatchTooLarge => ErrorKind::BadRequest,
                TaskError::LimitReached(_) => ErrorKind::Forbidden,
            },
    {
        match self {
            TaskError::NotFound => ErrorKind::NotFound,
            TaskError::Forbidden => ErrorKind::Forbidden,
            TaskError::BatchTooLarge => ErrorKind::BadRequest,
            TaskError::LimitReached(_) => ErrorKind::Forbidden,
        }
    }
}

impl FavoriteError {
    pub fn kind(&self) -> (r: ErrorKind)
        ensures
            r == match self {
                FavoriteError::TemplateNotFound => ErrorKind::NotFound,
                FavoriteError::AlreadyFavorite => ErrorKind::BadRequest,
                FavoriteError::CountOverflow => ErrorKind::Internal,
            },
    {
        match self {
            FavoriteError::TemplateNotFound => ErrorKind::NotFound,
            FavoriteError::AlreadyFavorite => ErrorKind::BadRequest,
            FavoriteError::CountOverflow => ErrorKind::Internal,
        }
    }
}

impl PayError {
    pub fn kind(&self) -> (r: ErrorKind)
        ensures
            r == match self {
                PayError::SignatureInvalid => ErrorKind::ProviderError,
                PayError::OrderNotFound => ErrorKind::NotFound,
                PayError::ProviderQueryFailed => ErrorKind::ProviderError,
                PayError::IdsExhausted => ErrorKind::Internal,
            },
    {
        match self {
            PayError::SignatureInvalid => ErrorKind::ProviderError,
            PayError::OrderNotFound => ErrorKind::NotFound,
            PayError::ProviderQueryFailed => ErrorKind::ProviderError,
            PayError::IdsExhausted => ErrorKind::Internal,
        }
    }
}

} // verus!
