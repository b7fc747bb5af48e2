pub use self::hasher::hash_password;
pub use self::hasher::verify_password;
pub use self::jwt::create_jwt;

pub mod hasher;
pub mod jwt;
pub mod text;
pub mod otp;
pub mod verify;
pub use self::verify::bearer_token;
